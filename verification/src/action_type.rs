//! The kind of change a signal reports, and its lower-case string form used
//! by the UI.
use vstd::prelude::*;
use vstd::string::*;

verus! {

/// What happened to an entry.
#[derive(Debug, Clone, Copy, PartialEq, Eq, Structural)]
pub enum ActionType {
    Create,
    Update,
    Delete,
}

/// The UI representation of an `ActionType`: a plain string.
#[derive(Debug, Clone)]
pub struct UIEnum(pub String);

/// The name of the variant, as `Debug` prints it.
pub open spec fn action_type_name(a: ActionType) -> Seq<char> {
    match a {
        ActionType::Create => "Create"@,
        ActionType::Update => "Update"@,
        ActionType::Delete => "Delete"@,
    }
}

/// The lower-case name that the UI uses.
pub open spec fn action_type_ui_name(a: ActionType) -> Seq<char> {
    match a {
        ActionType::Create => "create"@,
        ActionType::Update => "update"@,
        ActionType::Delete => "delete"@,
    }
}

/// Reading a UI string: "create" and "update" name their variants, every
/// other string reads as `Delete`.
pub open spec fn action_type_of(s: Seq<char>) -> ActionType {
    if s == "create"@ {
        ActionType::Create
    } else if s == "update"@ {
        ActionType::Update
    } else {
        ActionType::Delete
    }
}

impl From<UIEnum> for ActionType {
    fn from(ui_enum: UIEnum) -> (a: ActionType) {
        let create = String::from_str("create");
        let update = String::from_str("update");
        if ui_enum.0 == create {
            ActionType::Create
        } else if ui_enum.0 == update {
            ActionType::Update
        } else {
            ActionType::Delete
        }
    }
}

impl vstd::std_specs::convert::FromSpecImpl<UIEnum> for ActionType {
    open spec fn obeys_from_spec() -> bool {
        true
    }

    open spec fn from_spec(ui_enum: UIEnum) -> ActionType {
        action_type_of(ui_enum.0@)
    }
}

impl From<ActionType> for UIEnum {
    fn from(action_type: ActionType) -> (u: UIEnum)
        ensures
            u.0@ == action_type_ui_name(action_type),
            action_type == ActionType::Create ==> u.0@ == "create"@,
            action_type == ActionType::Update ==> u.0@ == "update"@,
            action_type == ActionType::Delete ==> u.0@ == "delete"@,
    {
        match action_type {
            ActionType::Create => UIEnum(String::from_str("create")),
            ActionType::Update => UIEnum(String::from_str("update")),
            ActionType::Delete => UIEnum(String::from_str("delete")),
        }
    }
}

impl vstd::std_specs::convert::FromSpecImpl<ActionType> for UIEnum {
    open spec fn obeys_from_spec() -> bool {
        false
    }

    open spec fn from_spec(action_type: ActionType) -> UIEnum {
        choose|u: UIEnum| u.0@ == action_type_ui_name(action_type)
    }
}

/// ASCII lower-casing, character by character.
pub open spec fn ascii_lowercase(s: Seq<char>) -> Seq<char> {
    s.map_values(|c: char| if 'A' <= c && c <= 'Z' { ((c as u32) + 32) as char } else { c })
}

impl ActionType {
    /// The variant's name, as its `Debug` form prints it.
    pub fn to_string(&self) -> (s: String)
        ensures
            s@ == action_type_name(*self),
            *self == ActionType::Create ==> s@ == "Create"@,
            *self == ActionType::Update ==> s@ == "Update"@,
            *self == ActionType::Delete ==> s@ == "Delete"@,
    {
        match self {
            ActionType::Create => String::from_str("Create"),
            ActionType::Update => String::from_str("Update"),
            ActionType::Delete => String::from_str("Delete"),
        }
    }
}

/// Law: the UI string of an action type is its printed name in lower case.
pub proof fn lemma_ui_name_is_lowercase_name(a: ActionType)
    ensures
        action_type_ui_name(a) == ascii_lowercase(action_type_name(a)),
{
    reveal_strlit("Create");
    reveal_strlit("Update");
    reveal_strlit("Delete");
    reveal_strlit("create");
    reveal_strlit("update");
    reveal_strlit("delete");
    assert(action_type_ui_name(a) =~= ascii_lowercase(action_type_name(a)));
}

/// Law: an action type written to its UI string reads back as itself.
pub proof fn lemma_action_type_round_trip(a: ActionType)
    ensures
        action_type_of(action_type_ui_name(a)) == a,
{
    reveal_strlit("create");
    reveal_strlit("update");
    reveal_strlit("delete");
    assert("create"@[0] == 'c' && "update"@[0] == 'u' && "delete"@[0] == 'd');
}

/// Law: the printed names and UI strings of the action types, and how UI
/// strings read: "create" and "update" name their variants, every other
/// string reads as `Delete`.
pub proof fn law_action_type_strings(s: Seq<char>)
    ensures
        action_type_name(ActionType::Create) == "Create"@,
        action_type_name(ActionType::Update) == "Update"@,
        action_type_name(ActionType::Delete) == "Delete"@,
        action_type_ui_name(ActionType::Create) == "create"@,
        action_type_ui_name(ActionType::Update) == "update"@,
        action_type_ui_name(ActionType::Delete) == "delete"@,
        action_type_of("create"@) == ActionType::Create,
        action_type_of("update"@) == ActionType::Update,
        s != "create"@ && s != "update"@ ==> action_type_of(s) == ActionType::Delete,
{
    lemma_action_type_round_trip(ActionType::Update);
}

} // verus!
