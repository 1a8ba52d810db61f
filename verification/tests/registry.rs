use systemctl_tui::action::Action;
use systemctl_tui::home::Home;
use systemctl_tui::sorting::sort_units_by_name;
use systemctl_tui::units::to_unit_status;
use systemctl_tui::units::Scope;
use systemctl_tui::units::UnitId;
use systemctl_tui::units::UnitScope;
use systemctl_tui::units::UnitWithStatus;

fn unit(name: &str, activation: &str) -> UnitWithStatus {
    to_unit_status(
        name.to_string(),
        format!("description of {name}"),
        "loaded".to_string(),
        activation.to_string(),
        "running".to_string(),
        UnitScope::Global,
    )
}

fn id(name: &str) -> UnitId {
    UnitId { name: name.to_string(), scope: UnitScope::Global }
}

fn fresh_home() -> Home {
    Home::new(Scope::All, vec![])
}

#[test]
fn search_filters_and_selects_first_match() {
    let mut home = fresh_home();
    home.set_units(vec![unit("a.service", "active"), unit("b.service", "failed")]);
    home.set_search("a".to_string());
    assert_eq!(home.filtered_units.items.len(), 1);
    assert_eq!(home.filtered_units.items[0].name, "a.service");
    assert_eq!(home.selected_service(), Some(id("a.service")));
}

#[test]
fn search_is_case_insensitive_both_ways() {
    let mut home = fresh_home();
    home.set_units(vec![unit("foo.service", "active"), unit("Bar.service", "active")]);
    home.set_search("FOO".to_string());
    assert_eq!(home.filtered_units.items.len(), 1);
    assert_eq!(home.filtered_units.items[0].name, "foo.service");
    home.set_search("bar".to_string());
    assert_eq!(home.filtered_units.items.len(), 1);
    assert_eq!(home.filtered_units.items[0].name, "Bar.service");
}

#[test]
fn empty_filter_clears_selection() {
    let mut home = fresh_home();
    home.set_units(vec![unit("a.service", "active")]);
    home.set_search("zzz".to_string());
    assert!(home.filtered_units.items.is_empty());
    assert_eq!(home.selected_service(), None);
}

#[test]
fn merge_keeps_resolved_file_path() {
    let mut home = fresh_home();
    home.set_units(vec![unit("a.service", "active")]);
    home.dispatch(Action::SetUnitFilePath {
        unit: id("a.service"),
        path: Ok("/etc/a.service".to_string()),
    });
    assert_eq!(home.all_units[0].file_path, Some(Ok("/etc/a.service".to_string())));

    // a fresher snapshot without a path must not wipe the cached one
    home.update_units(vec![unit("a.service", "inactive")]);
    assert_eq!(home.all_units[0].file_path, Some(Ok("/etc/a.service".to_string())));
    assert_eq!(home.all_units[0].activation_state, "inactive");
    // and the filtered view shows the merged unit too
    assert_eq!(home.filtered_units.items[0].file_path, Some(Ok("/etc/a.service".to_string())));
}

#[test]
fn merge_never_removes_missing_units() {
    let mut home = fresh_home();
    home.set_units(vec![unit("a.service", "active"), unit("b.service", "active")]);
    home.update_units(vec![unit("a.service", "failed")]);
    assert_eq!(home.all_units.len(), 2);
    assert_eq!(home.all_units[0].activation_state, "failed");
    assert_eq!(home.all_units[1].name, "b.service");
}

#[test]
fn merge_inserts_unknown_units_at_the_end() {
    let mut home = fresh_home();
    home.set_units(vec![unit("a.service", "active")]);
    home.update_units(vec![unit("c.service", "active")]);
    assert_eq!(home.all_units.len(), 2);
    assert_eq!(home.all_units[1].name, "c.service");
}

#[test]
fn replace_shrinks_and_dedups() {
    let mut home = fresh_home();
    home.set_units(vec![unit("a.service", "active"), unit("b.service", "active")]);
    home.set_units(vec![unit("b.service", "active")]);
    assert_eq!(home.all_units.len(), 1);

    // two snapshots with the same id: the later value wins, one entry stays
    home.set_units(vec![unit("a.service", "active"), unit("a.service", "failed")]);
    assert_eq!(home.all_units.len(), 1);
    assert_eq!(home.all_units[0].activation_state, "failed");
}

#[test]
fn replace_resets_selection_to_the_first_match() {
    let mut home = fresh_home();
    home.set_units(vec![unit("alpha.service", "active"), unit("beta.service", "active")]);
    home.next();
    assert_eq!(home.selected_service(), Some(id("beta.service")));
    // a wholesale replace resets the cursor, even when the same unit is
    // still present
    let req = home.set_units(vec![unit("alpha.service", "active"), unit("beta.service", "active")]);
    assert_eq!(home.filtered_units.state, Some(0));
    assert_eq!(home.selected_service(), Some(id("alpha.service")));
    assert_eq!(req, Some(id("alpha.service")));
    // and clears it when nothing matches
    home.set_search("beta".to_string());
    home.set_units(vec![unit("alpha.service", "active")]);
    assert_eq!(home.filtered_units.state, None);
    assert_eq!(home.selected_service(), None);
}

#[test]
fn selection_survives_search_change_by_identity() {
    let mut home = fresh_home();
    home.set_units(vec![unit("alpha.service", "active"), unit("beta.service", "active")]);
    home.next();
    assert_eq!(home.selected_service(), Some(id("beta.service")));
    home.set_search("e".to_string());
    // both units contain "e"; beta stays selected even though its index moved
    assert_eq!(home.selected_service(), Some(id("beta.service")));
    home.set_search("alp".to_string());
    // beta is filtered out: selection falls back to the first match
    assert_eq!(home.selected_service(), Some(id("alpha.service")));
}

#[test]
fn sort_is_case_insensitive_by_name() {
    let sorted = sort_units_by_name(vec![
        unit("b.service", "active"),
        unit("a2.service", "active"),
        unit("A.service", "active"),
    ]);
    let names: Vec<&str> = sorted.iter().map(|u| u.name.as_str()).collect();
    assert_eq!(names, vec!["A.service", "a2.service", "b.service"]);
}

#[test]
fn short_name_strips_only_the_service_suffix() {
    let a = unit("a.service", "active");
    assert_eq!(a.short_name(), "a");
    let t = unit("b.timer", "active");
    assert_eq!(t.short_name(), "b.timer");
    let bare = unit("svc", "active");
    assert_eq!(bare.short_name(), "svc");
}

#[test]
fn status_predicates_read_the_state_strings() {
    let a = unit("a.service", "active");
    assert!(a.is_active());
    assert!(!a.is_failed());
    assert!(a.is_enabled());
    assert!(!a.is_not_found());
    let f = unit("f.service", "failed");
    assert!(f.is_failed());
    assert!(!f.is_active());
    let mut nf = unit("n.service", "inactive");
    nf.load_state = "not-found".to_string();
    assert!(nf.is_not_found());
    assert!(!nf.is_enabled());
}

#[test]
fn unit_identity_is_name_and_scope() {
    let a = unit("a.service", "active");
    assert_eq!(a.id(), id("a.service"));
    assert!(a.same_id(&id("a.service")));
    assert!(!a.same_id(&UnitId { name: "a.service".to_string(), scope: UnitScope::User }));
    let copy = a.duplicate();
    assert_eq!(copy, a);
}
