use vstd::prelude::*;

use crate::error::HideError;
use crate::text::same_text;

verus! {

/// The two published variants of the matting network.
#[derive(Debug, Clone, Copy, PartialEq, Eq, Structural)]
pub enum RvmModelKind {
    MobileNetV3,
    Resnet50,
}

/// Name of the directory (and archive stem) that holds a variant's saved model.
pub open spec fn filename_of(kind: RvmModelKind) -> Seq<char> {
    match kind {
        RvmModelKind::MobileNetV3 => "rvm_mobilenetv3_tf"@,
        RvmModelKind::Resnet50 => "rvm_resnet50_tf"@,
    }
}

/// Name under which a variant is selected on the command line.
pub open spec fn name_of(kind: RvmModelKind) -> Seq<char> {
    match kind {
        RvmModelKind::MobileNetV3 => "mobilenetv3"@,
        RvmModelKind::Resnet50 => "resnet50"@,
    }
}

/// The variant a name selects, if any.
pub open spec fn kind_named(s: Seq<char>) -> Option<RvmModelKind> {
    if s == name_of(RvmModelKind::MobileNetV3) {
        Some(RvmModelKind::MobileNetV3)
    } else if s == name_of(RvmModelKind::Resnet50) {
        Some(RvmModelKind::Resnet50)
    } else {
        None
    }
}

impl RvmModelKind {
    /// Directory name of the variant's saved model.
    pub fn to_filename(&self) -> (r: &'static str)
        ensures
            r@ == filename_of(*self),
    {
        match self {
            RvmModelKind::MobileNetV3 => "rvm_mobilenetv3_tf",
            RvmModelKind::Resnet50 => "rvm_resnet50_tf",
        }
    }

    /// The name a user types to select this variant.
    pub fn name(&self) -> (r: &'static str)
        ensures
            r@ == name_of(*self),
    {
        match self {
            RvmModelKind::MobileNetV3 => "mobilenetv3",
            RvmModelKind::Resnet50 => "resnet50",
        }
    }

    /// Reads a variant from its name; any other text is an invalid model
    /// selection that carries the rejected text.
    pub fn parse(s: &str) -> (r: Result<RvmModelKind, HideError>)
        ensures
            kind_named(s@) matches Some(k) ==> r == Ok::<RvmModelKind, HideError>(k),
            kind_named(s@) is None ==> (r matches Err(HideError::InvalidModel(t)) && t@ == s@),
    {
        if same_text(s, "mobilenetv3") {
            Ok(RvmModelKind::MobileNetV3)
        } else if same_text(s, "resnet50") {
            Ok(RvmModelKind::Resnet50)
        } else {
            Err(HideError::InvalidModel(s.to_owned()))
        }
    }
}

impl Default for RvmModelKind {
    fn default() -> (r: Self)
        ensures
            r == RvmModelKind::MobileNetV3,
    {
        RvmModelKind::MobileNetV3
    }
}

impl std::str::FromStr for RvmModelKind {
    type Err = HideError;

    fn from_str(s: &str) -> (r: Result<Self, Self::Err>)
        ensures
            kind_named(s@) matches Some(k) ==> r == Ok::<RvmModelKind, HideError>(k),
            kind_named(s@) is None ==> (r matches Err(HideError::InvalidModel(t)) && t@ == s@),
    {
        RvmModelKind::parse(s)
    }
}

} // verus!
