use vstd::prelude::*;

verus! {

/// The five accessor kinds that can be requested for a field.
#[derive(PartialEq, Eq, Copy, Clone, Debug, Structural)]
pub enum GenMode {
    Get,
    GetCopy,
    GetClone,
    Setter,
    GetMut,
}

impl GenMode {
    /// The directive name that requests this kind.
    pub open spec fn spec_name(self) -> Seq<char> {
        match self {
            GenMode::Get => "get"@,
            GenMode::GetCopy => "get_copy"@,
            GenMode::GetClone => "get_clone"@,
            GenMode::Setter => "set"@,
            GenMode::GetMut => "get_mut"@,
        }
    }

    pub open spec fn spec_prefix(self) -> Seq<char> {
        match self {
            GenMode::Setter => "set_"@,
            _ => ""@,
        }
    }

    pub open spec fn spec_suffix(self) -> Seq<char> {
        match self {
            GenMode::GetMut => "_mut"@,
            _ => ""@,
        }
    }

    /// Every kind but the setter reads the field.
    pub open spec fn spec_is_get(self) -> bool {
        !(self is Setter)
    }

    pub fn name(self) -> (r: &'static str)
        ensures
            r@ == self.spec_name(),
    {
        match self {
            GenMode::Get => "get",
            GenMode::GetCopy => "get_copy",
            GenMode::GetClone => "get_clone",
            GenMode::Setter => "set",
            GenMode::GetMut => "get_mut",
        }
    }

    pub fn prefix(self) -> (r: &'static str)
        ensures
            r@ == self.spec_prefix(),
    {
        match self {
            GenMode::Get | GenMode::GetCopy | GenMode::GetClone | GenMode::GetMut => "",
            GenMode::Setter => "set_",
        }
    }

    pub fn suffix(self) -> (r: &'static str)
        ensures
            r@ == self.spec_suffix(),
    {
        match self {
            GenMode::Get | GenMode::GetCopy | GenMode::GetClone | GenMode::Setter => "",
            GenMode::GetMut => "_mut",
        }
    }

    pub fn is_get(self) -> (r: bool)
        ensures
            r == self.spec_is_get(),
    {
        match self {
            GenMode::Get | GenMode::GetCopy | GenMode::GetClone | GenMode::GetMut => true,
            GenMode::Setter => false,
        }
    }
}

} // verus!
