use dna_help::action_type::{ActionType, UIEnum};
use dna_help::goal::{Hierarchy, Status, UIEnum as GoalUIEnum};

fn ui(s: &str) -> UIEnum {
    UIEnum(s.to_string())
}

fn goal_ui(s: &str) -> GoalUIEnum {
    GoalUIEnum(s.to_string())
}

#[test]
fn action_type_reads_known_names() {
    assert_eq!(ActionType::from(ui("create")), ActionType::Create);
    assert_eq!(ActionType::from(ui("update")), ActionType::Update);
    assert_eq!(ActionType::from(ui("delete")), ActionType::Delete);
}

#[test]
fn action_type_reads_unknown_names_as_delete() {
    assert_eq!(ActionType::from(ui("Create")), ActionType::Delete);
    assert_eq!(ActionType::from(ui("")), ActionType::Delete);
    assert_eq!(ActionType::from(ui("remove")), ActionType::Delete);
}

#[test]
fn action_type_writes_lower_case_names() {
    assert_eq!(UIEnum::from(ActionType::Create).0, "create");
    assert_eq!(UIEnum::from(ActionType::Update).0, "update");
    assert_eq!(UIEnum::from(ActionType::Delete).0, "delete");
}

#[test]
fn action_type_prints_its_name() {
    assert_eq!(ActionType::Create.to_string(), "Create");
    assert_eq!(ActionType::Update.to_string(), "Update");
    assert_eq!(ActionType::Delete.to_string(), "Delete");
    for a in [ActionType::Create, ActionType::Update, ActionType::Delete] {
        assert_eq!(UIEnum::from(a).0, a.to_string().to_lowercase());
    }
}

#[test]
fn action_type_round_trips_through_its_ui_string() {
    for a in [ActionType::Create, ActionType::Update, ActionType::Delete] {
        assert_eq!(ActionType::from(UIEnum::from(a)), a);
    }
}

#[test]
fn status_reads_and_writes_names() {
    assert_eq!(Status::from(goal_ui("Incomplete")), Status::Incomplete);
    assert_eq!(Status::from(goal_ui("InProcess")), Status::InProcess);
    assert_eq!(Status::from(goal_ui("Complete")), Status::Complete);
    assert_eq!(Status::from(goal_ui("InReview")), Status::InReview);
    assert_eq!(Status::from(goal_ui("Uncertain")), Status::Uncertain);
    assert_eq!(Status::from(goal_ui("complete")), Status::Uncertain);
    assert_eq!(Status::from(goal_ui("")), Status::Uncertain);
    assert_eq!(GoalUIEnum::from(Status::InProcess).0, "InProcess");
    assert_eq!(Status::InReview.to_string(), "InReview");
}

#[test]
fn status_round_trips_through_its_ui_string() {
    for s in [
        Status::Uncertain,
        Status::Incomplete,
        Status::InProcess,
        Status::Complete,
        Status::InReview,
    ] {
        assert_eq!(Status::from(GoalUIEnum::from(s)), s);
    }
}

#[test]
fn hierarchy_reads_and_writes_names() {
    assert_eq!(Hierarchy::from(goal_ui("Root")), Hierarchy::Root);
    assert_eq!(Hierarchy::from(goal_ui("Trunk")), Hierarchy::Trunk);
    assert_eq!(Hierarchy::from(goal_ui("Branch")), Hierarchy::Branch);
    assert_eq!(Hierarchy::from(goal_ui("Leaf")), Hierarchy::Leaf);
    assert_eq!(Hierarchy::from(goal_ui("NoHierarchy")), Hierarchy::NoHierarchy);
    assert_eq!(Hierarchy::from(goal_ui("root")), Hierarchy::NoHierarchy);
    assert_eq!(GoalUIEnum::from(Hierarchy::Leaf).0, "Leaf");
    assert_eq!(Hierarchy::Trunk.to_string(), "Trunk");
}

#[test]
fn hierarchy_round_trips_through_its_ui_string() {
    for h in [
        Hierarchy::Root,
        Hierarchy::Trunk,
        Hierarchy::Branch,
        Hierarchy::Leaf,
        Hierarchy::NoHierarchy,
    ] {
        assert_eq!(Hierarchy::from(GoalUIEnum::from(h)), h);
    }
}
