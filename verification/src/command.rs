//! Command builders for the external containerization tool.
//!
//! Each builder is an immutable value holding one operation's configuration;
//! every configuration method returns a new builder with one field changed.
//! A builder's only capability is to produce the ordered argument sequence
//! passed to the tool, stated exactly by its `spec_args`. An optional field
//! left unset is omitted from the sequence entirely, never emitted as an
//! empty string.

use vstd::prelude::*;
use vstd::string::StringExecFns;

verus! {

/// The capability shared by all builders: produce an ordered argument list.
///
/// `args` is pure — its result is exactly `spec_args`, a function of the
/// builder's configuration alone, so repeated calls agree.
pub trait DockerCommand {
    /// The argument sequence this configuration denotes.
    spec fn spec_args(&self) -> Seq<Seq<char>>;

    /// Produce the argument list, in the exact order the tool expects.
    fn args(&self) -> (r: Vec<String>)
        ensures
            r.deep_view() == self.spec_args(),
    ;
}

/// Entry point: one constructor per supported operation.
pub struct Rocker {}

impl Rocker {
    /// A build builder with the default file and context.
    pub fn build() -> (b: DockerBuild)
        ensures
            b.context@ == "."@,
            b.file@ == "Dockerfile"@,
            b.tag is None,
    {
        DockerBuild::new()
    }

    /// A create builder for the given image.
    pub fn create(image: &str) -> (c: DockerCreate)
        ensures
            c.image@ == image@,
    {
        DockerCreate::new(image)
    }

    /// A copy builder with both endpoints unset.
    pub fn copy() -> (c: DockerCopy)
        ensures
            c.from is None,
            c.to is None,
    {
        DockerCopy::new()
    }
}

/// Configuration of a `build` invocation: context directory, build file,
/// optional image tag.
pub struct DockerBuild {
    pub context: String,
    pub file: String,
    pub tag: Option<String>,
}

impl DockerBuild {
    /// The default configuration: context `.`, file `Dockerfile`, no tag.
    pub fn new() -> (b: DockerBuild)
        ensures
            b.context@ == "."@,
            b.file@ == "Dockerfile"@,
            b.tag is None,
    {
        DockerBuild { context: ".".to_owned(), file: "Dockerfile".to_owned(), tag: None }
    }

    /// A copy of this builder with the context replaced.
    pub fn context(&self, context: &str) -> (b: DockerBuild)
        ensures
            b.context@ == context@,
            b.file == self.file,
            b.tag == self.tag,
    {
        DockerBuild { context: context.to_owned(), file: self.file.clone(), tag: self.tag.clone() }
    }

    /// A copy of this builder with the build file replaced.
    pub fn file(&self, file: &str) -> (b: DockerBuild)
        ensures
            b.context == self.context,
            b.file@ == file@,
            b.tag == self.tag,
    {
        DockerBuild { context: self.context.clone(), file: file.to_owned(), tag: self.tag.clone() }
    }

    /// A copy of this builder with the tag set.
    pub fn tag(&self, tag: &str) -> (b: DockerBuild)
        ensures
            b.context == self.context,
            b.file == self.file,
            b.tag is Some && b.tag->0@ == tag@,
    {
        DockerBuild { context: self.context.clone(), file: self.file.clone(), tag: Some(tag.to_owned()) }
    }
}

impl DockerCommand for DockerBuild {
    open spec fn spec_args(&self) -> Seq<Seq<char>> {
        match self.tag {
            Some(t) => seq!["build"@, "-f"@, self.file@, "-t"@, t@, self.context@],
            None => seq!["build"@, "-f"@, self.file@, self.context@],
        }
    }

    fn args(&self) -> (r: Vec<String>) {
        let mut r: Vec<String> = Vec::new();
        r.push("build".to_owned());
        r.push("-f".to_owned());
        r.push(self.file.clone());
        match &self.tag {
            Some(t) => {
                r.push("-t".to_owned());
                r.push(t.clone());
            },
            None => {},
        }
        r.push(self.context.clone());
        proof {
            assert(r.deep_view() =~= self.spec_args());
        }
        r
    }
}

/// Configuration of a `create` invocation: the image to instantiate.
pub struct DockerCreate {
    pub image: String,
}

impl DockerCreate {
    /// A create builder for the given image.
    pub fn new(image: &str) -> (c: DockerCreate)
        ensures
            c.image@ == image@,
    {
        DockerCreate { image: image.to_owned() }
    }
}

impl DockerCommand for DockerCreate {
    open spec fn spec_args(&self) -> Seq<Seq<char>> {
        seq!["create"@, self.image@]
    }

    fn args(&self) -> (r: Vec<String>) {
        let mut r: Vec<String> = Vec::new();
        r.push("create".to_owned());
        r.push(self.image.clone());
        proof {
            assert(r.deep_view() =~= self.spec_args());
        }
        r
    }
}

/// The colon-joined `identifier:path` form naming a location inside a
/// container, used for the source side of a copy.
pub open spec fn colon_joined(container_id: Seq<char>, path: Seq<char>) -> Seq<char> {
    container_id + seq![':'] + path
}

/// Configuration of a `cp` invocation: optional source (inside a container)
/// and destination (on the host).
pub struct DockerCopy {
    pub from: Option<String>,
    pub to: Option<String>,
}

impl DockerCopy {
    /// A copy builder with both endpoints unset.
    pub fn new() -> (c: DockerCopy)
        ensures
            c.from is None,
            c.to is None,
    {
        DockerCopy { from: None, to: None }
    }

    /// A copy of this builder whose source is `container_id:path`.
    pub fn from_container(&self, container_id: &str, path: &str) -> (c: DockerCopy)
        ensures
            c.from is Some && c.from->0@ == colon_joined(container_id@, path@),
            c.to == self.to,
    {
        let mut from = container_id.to_owned();
        from.append(":");
        from.append(path);
        proof {
            reveal_strlit(":");
            assert(":"@ =~= seq![':']);
        }
        DockerCopy { from: Some(from), to: self.to.clone() }
    }

    /// A copy of this builder whose destination is the given host path.
    pub fn to_host(&self, path: &str) -> (c: DockerCopy)
        ensures
            c.from == self.from,
            c.to is Some && c.to->0@ == path@,
    {
        DockerCopy { from: self.from.clone(), to: Some(path.to_owned()) }
    }
}

impl DockerCommand for DockerCopy {
    open spec fn spec_args(&self) -> Seq<Seq<char>> {
        let base = seq!["cp"@];
        let with_from = match self.from {
            Some(f) => base.push(f@),
            None => base,
        };
        match self.to {
            Some(t) => with_from.push(t@),
            None => with_from,
        }
    }

    fn args(&self) -> (r: Vec<String>) {
        let mut r: Vec<String> = Vec::new();
        r.push("cp".to_owned());
        match &self.from {
            Some(f) => r.push(f.clone()),
            None => {},
        }
        match &self.to {
            Some(t) => r.push(t.clone()),
            None => {},
        }
        proof {
            assert(r.deep_view() =~= self.spec_args());
        }
        r
    }
}

/// Law: a builder's argument sequence is a function of its configuration
/// alone. Any two results meeting the postcondition of `args` on the same
/// builder value are identical, so `args` has no side effects to observe and
/// may be called any number of times.
pub proof fn lemma_args_deterministic<C: DockerCommand>(
    c: &C,
    r1: Seq<Seq<char>>,
    r2: Seq<Seq<char>>,
)
    requires
        r1 == c.spec_args(),
        r2 == c.spec_args(),
    ensures
        r1 == r2,
{
}

/// Law: a build with no tag produces exactly the four base arguments — the
/// omitted tag contributes no `-t` flag pair to the sequence.
pub proof fn lemma_unset_tag_omitted(b: &DockerBuild)
    requires
        b.tag is None,
    ensures
        b.spec_args() =~= seq!["build"@, "-f"@, b.file@, b.context@],
        b.spec_args().len() == 4,
{
}

/// Law: a copy with neither endpoint set produces only the operation word —
/// unset endpoints contribute no arguments, in particular no empty strings.
pub proof fn lemma_unset_copy_endpoints_omitted(c: &DockerCopy)
    requires
        c.from is None,
        c.to is None,
    ensures
        c.spec_args() =~= seq!["cp"@],
        c.spec_args().len() == 1,
{
}

} // verus!
