//! The vocabulary of a goal card: its status and its place in the
//! hierarchy, each with the string form the UI uses (the variant's name).
use vstd::prelude::*;
use vstd::string::*;

verus! {

/// The UI representation of a goal enum: a plain string.
#[derive(Debug, Clone)]
pub struct UIEnum(pub String);

/// How far along a goal is.
#[derive(Debug, Clone, Copy, PartialEq, Eq, Structural)]
pub enum Status {
    Uncertain,
    Incomplete,
    InProcess,
    Complete,
    InReview,
}

/// Where a goal sits in the tree.
#[derive(Debug, Clone, Copy, PartialEq, Eq, Structural)]
pub enum Hierarchy {
    Root,
    Trunk,
    Branch,
    Leaf,
    NoHierarchy,
}

/// The name of a status, as `Debug` prints it; also its UI string.
pub open spec fn status_name(s: Status) -> Seq<char> {
    match s {
        Status::Uncertain => "Uncertain"@,
        Status::Incomplete => "Incomplete"@,
        Status::InProcess => "InProcess"@,
        Status::Complete => "Complete"@,
        Status::InReview => "InReview"@,
    }
}

/// Reading a UI string as a status: the four names other than
/// "Uncertain" give their variant; every other string reads as `Uncertain`.
pub open spec fn status_of(s: Seq<char>) -> Status {
    if s == "Incomplete"@ {
        Status::Incomplete
    } else if s == "InProcess"@ {
        Status::InProcess
    } else if s == "Complete"@ {
        Status::Complete
    } else if s == "InReview"@ {
        Status::InReview
    } else {
        Status::Uncertain
    }
}

/// The name of a hierarchy level, as `Debug` prints it; also its UI string.
pub open spec fn hierarchy_name(h: Hierarchy) -> Seq<char> {
    match h {
        Hierarchy::Root => "Root"@,
        Hierarchy::Trunk => "Trunk"@,
        Hierarchy::Branch => "Branch"@,
        Hierarchy::Leaf => "Leaf"@,
        Hierarchy::NoHierarchy => "NoHierarchy"@,
    }
}

/// Reading a UI string as a hierarchy level: the four names other than
/// "NoHierarchy" give their variant; every other string reads as
/// `NoHierarchy`.
pub open spec fn hierarchy_of(s: Seq<char>) -> Hierarchy {
    if s == "Root"@ {
        Hierarchy::Root
    } else if s == "Trunk"@ {
        Hierarchy::Trunk
    } else if s == "Branch"@ {
        Hierarchy::Branch
    } else if s == "Leaf"@ {
        Hierarchy::Leaf
    } else {
        Hierarchy::NoHierarchy
    }
}

impl Status {
    /// The status's name, as its `Debug` form prints it.
    pub fn to_string(&self) -> (s: String)
        ensures
            s@ == status_name(*self),
            *self == Status::Uncertain ==> s@ == "Uncertain"@,
            *self == Status::Incomplete ==> s@ == "Incomplete"@,
            *self == Status::InProcess ==> s@ == "InProcess"@,
            *self == Status::Complete ==> s@ == "Complete"@,
            *self == Status::InReview ==> s@ == "InReview"@,
    {
        match self {
            Status::Uncertain => String::from_str("Uncertain"),
            Status::Incomplete => String::from_str("Incomplete"),
            Status::InProcess => String::from_str("InProcess"),
            Status::Complete => String::from_str("Complete"),
            Status::InReview => String::from_str("InReview"),
        }
    }
}

impl Hierarchy {
    /// The level's name, as its `Debug` form prints it.
    pub fn to_string(&self) -> (s: String)
        ensures
            s@ == hierarchy_name(*self),
            *self == Hierarchy::Root ==> s@ == "Root"@,
            *self == Hierarchy::Trunk ==> s@ == "Trunk"@,
            *self == Hierarchy::Branch ==> s@ == "Branch"@,
            *self == Hierarchy::Leaf ==> s@ == "Leaf"@,
            *self == Hierarchy::NoHierarchy ==> s@ == "NoHierarchy"@,
    {
        match self {
            Hierarchy::Root => String::from_str("Root"),
            Hierarchy::Trunk => String::from_str("Trunk"),
            Hierarchy::Branch => String::from_str("Branch"),
            Hierarchy::Leaf => String::from_str("Leaf"),
            Hierarchy::NoHierarchy => String::from_str("NoHierarchy"),
        }
    }
}

impl From<UIEnum> for Status {
    fn from(ui_enum: UIEnum) -> (s: Status) {
        if ui_enum.0 == String::from_str("Incomplete") {
            Status::Incomplete
        } else if ui_enum.0 == String::from_str("InProcess") {
            Status::InProcess
        } else if ui_enum.0 == String::from_str("Complete") {
            Status::Complete
        } else if ui_enum.0 == String::from_str("InReview") {
            Status::InReview
        } else {
            Status::Uncertain
        }
    }
}

impl vstd::std_specs::convert::FromSpecImpl<UIEnum> for Status {
    open spec fn obeys_from_spec() -> bool {
        true
    }

    open spec fn from_spec(ui_enum: UIEnum) -> Status {
        status_of(ui_enum.0@)
    }
}

impl From<Status> for UIEnum {
    fn from(status: Status) -> (u: UIEnum)
        ensures
            u.0@ == status_name(status),
    {
        UIEnum(status.to_string())
    }
}

impl vstd::std_specs::convert::FromSpecImpl<Status> for UIEnum {
    open spec fn obeys_from_spec() -> bool {
        false
    }

    open spec fn from_spec(status: Status) -> UIEnum {
        choose|u: UIEnum| u.0@ == status_name(status)
    }
}

impl From<UIEnum> for Hierarchy {
    fn from(ui_enum: UIEnum) -> (h: Hierarchy) {
        if ui_enum.0 == String::from_str("Root") {
            Hierarchy::Root
        } else if ui_enum.0 == String::from_str("Trunk") {
            Hierarchy::Trunk
        } else if ui_enum.0 == String::from_str("Branch") {
            Hierarchy::Branch
        } else if ui_enum.0 == String::from_str("Leaf") {
            Hierarchy::Leaf
        } else {
            Hierarchy::NoHierarchy
        }
    }
}

impl vstd::std_specs::convert::FromSpecImpl<UIEnum> for Hierarchy {
    open spec fn obeys_from_spec() -> bool {
        true
    }

    open spec fn from_spec(ui_enum: UIEnum) -> Hierarchy {
        hierarchy_of(ui_enum.0@)
    }
}

impl From<Hierarchy> for UIEnum {
    fn from(hierarchy: Hierarchy) -> (u: UIEnum)
        ensures
            u.0@ == hierarchy_name(hierarchy),
    {
        UIEnum(hierarchy.to_string())
    }
}

impl vstd::std_specs::convert::FromSpecImpl<Hierarchy> for UIEnum {
    open spec fn obeys_from_spec() -> bool {
        false
    }

    open spec fn from_spec(hierarchy: Hierarchy) -> UIEnum {
        choose|u: UIEnum| u.0@ == hierarchy_name(hierarchy)
    }
}

/// Law: a status written to its UI string reads back as itself.
pub proof fn lemma_status_round_trip(status: Status)
    ensures
        status_of(status_name(status)) == status,
{
    reveal_strlit("Uncertain");
    reveal_strlit("Incomplete");
    reveal_strlit("InProcess");
    reveal_strlit("Complete");
    reveal_strlit("InReview");
    assert("Uncertain"@[0] == 'U' && "Complete"@[0] == 'C');
    assert("Incomplete"@[2] == 'c' && "InProcess"@[2] == 'P' && "InReview"@[2] == 'R');
    assert("Uncertain"@[2] == 'c' && "Complete"@[2] == 'm');
    assert("Incomplete"@[0] == 'I' && "InProcess"@[0] == 'I' && "InReview"@[0] == 'I');
}

/// Law: a hierarchy level written to its UI string reads back as itself.
pub proof fn lemma_hierarchy_round_trip(hierarchy: Hierarchy)
    ensures
        hierarchy_of(hierarchy_name(hierarchy)) == hierarchy,
{
    reveal_strlit("Root");
    reveal_strlit("Trunk");
    reveal_strlit("Branch");
    reveal_strlit("Leaf");
    reveal_strlit("NoHierarchy");
    assert("Root"@[0] == 'R' && "Trunk"@[0] == 'T' && "Branch"@[0] == 'B');
    assert("Leaf"@[0] == 'L' && "NoHierarchy"@[0] == 'N');
}

/// Law: the UI string of each status is the name of its variant.
pub proof fn law_status_strings_are_variant_names()
    ensures
        status_name(Status::Uncertain) == "Uncertain"@,
        status_name(Status::Incomplete) == "Incomplete"@,
        status_name(Status::InProcess) == "InProcess"@,
        status_name(Status::Complete) == "Complete"@,
        status_name(Status::InReview) == "InReview"@,
{
}

/// Law: each variant name reads as its status, and a string that is no
/// status name but "Uncertain"'s reads as `Uncertain`.
pub proof fn law_status_reading(s: Seq<char>)
    ensures
        status_of("Incomplete"@) == Status::Incomplete,
        status_of("InProcess"@) == Status::InProcess,
        status_of("Complete"@) == Status::Complete,
        status_of("InReview"@) == Status::InReview,
        status_of("Uncertain"@) == Status::Uncertain,
        s != "Incomplete"@ && s != "InProcess"@ && s != "Complete"@ && s != "InReview"@
            ==> status_of(s) == Status::Uncertain,
{
    lemma_status_round_trip(Status::Uncertain);
    lemma_status_round_trip(Status::Incomplete);
    lemma_status_round_trip(Status::InProcess);
    lemma_status_round_trip(Status::Complete);
    lemma_status_round_trip(Status::InReview);
}

/// Law: the UI string of each hierarchy level is the name of its variant.
pub proof fn law_hierarchy_strings_are_variant_names()
    ensures
        hierarchy_name(Hierarchy::Root) == "Root"@,
        hierarchy_name(Hierarchy::Trunk) == "Trunk"@,
        hierarchy_name(Hierarchy::Branch) == "Branch"@,
        hierarchy_name(Hierarchy::Leaf) == "Leaf"@,
        hierarchy_name(Hierarchy::NoHierarchy) == "NoHierarchy"@,
{
}

/// Law: each variant name reads as its level, and a string that is no
/// level name but "NoHierarchy"'s reads as `NoHierarchy`.
pub proof fn law_hierarchy_reading(s: Seq<char>)
    ensures
        hierarchy_of("Root"@) == Hierarchy::Root,
        hierarchy_of("Trunk"@) == Hierarchy::Trunk,
        hierarchy_of("Branch"@) == Hierarchy::Branch,
        hierarchy_of("Leaf"@) == Hierarchy::Leaf,
        hierarchy_of("NoHierarchy"@) == Hierarchy::NoHierarchy,
        s != "Root"@ && s != "Trunk"@ && s != "Branch"@ && s != "Leaf"@ ==> hierarchy_of(s)
            == Hierarchy::NoHierarchy,
{
    lemma_hierarchy_round_trip(Hierarchy::Root);
    lemma_hierarchy_round_trip(Hierarchy::Trunk);
    lemma_hierarchy_round_trip(Hierarchy::Branch);
    lemma_hierarchy_round_trip(Hierarchy::Leaf);
    lemma_hierarchy_round_trip(Hierarchy::NoHierarchy);
}

} // verus!
