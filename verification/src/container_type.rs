use vstd::prelude::*;

verus! {

/// The purpose a sandbox container serves.
#[derive(Copy, Clone, Debug, PartialEq, Eq, Structural)]
pub enum ContainerType {
    Build,
    Publish,
}

impl ContainerType {
    /// The name of the purpose as it appears in labels and image names.
    pub open spec fn name(self) -> Seq<char> {
        match self {
            ContainerType::Build => "build"@,
            ContainerType::Publish => "publish"@,
        }
    }

    pub fn as_str(&self) -> (s: &'static str)
        ensures
            s@ == self.name(),
    {
        match self {
            ContainerType::Build => "build",
            ContainerType::Publish => "publish",
        }
    }
}

/// The two purposes have different names.
pub proof fn lemma_names_differ()
    ensures
        ContainerType::Build.name() != ContainerType::Publish.name(),
{
    reveal_strlit("build");
    reveal_strlit("publish");
    assert("build"@.len() == 5);
    assert("publish"@.len() == 7);
}

} // verus!
