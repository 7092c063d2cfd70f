use fishtank::action::Action;
use fishtank::components::fishtank::Fishtank;
use fishtank::components::project_editor::{Project, ProjectList, RawBasecallsFormat};
use fishtank::components::settings::Settings;
use fishtank::components::software_list::SoftwareList;
use fishtank::components::utils::{Focusable, Margin};
use fishtank::data::project::ProjectType;
use fishtank::keys::Mode;

#[test]
fn software_list_starts_with_known_software() {
    let s = SoftwareList::new();
    assert_eq!(s.items, vec!["Dorado v0.8.1", "Bonito v0.1.0", "Guppy v0.2.0"]);
    assert!(!s.has_focus);
    assert_eq!(SoftwareList::default().items.len(), 3);
}

#[test]
fn project_list_starts_empty_and_focused() {
    let p = ProjectList::new();
    assert!(p.items.is_empty());
    assert!(p.has_focus);
}

#[test]
fn focus_and_unfocus() {
    let mut s = SoftwareList::new();
    s.focus();
    assert!(s.has_focus);
    s.unfocus();
    assert!(!s.has_focus);
    let mut t = Settings::new();
    t.focus();
    assert!(t.has_focus);
    let mut f = Fishtank::new();
    f.focus();
    f.unfocus();
    assert!(!f.has_focus);
}

#[test]
fn panes_have_no_follow_up_action() {
    let mut s = SoftwareList::new();
    assert_eq!(s.update(Action::Tick), None);
    let mut p = ProjectList::new();
    assert_eq!(p.update(Action::Render), None);
    let mut t = Settings::default();
    assert_eq!(t.update(Action::Quit), None);
    let mut f = Fishtank::default();
    assert_eq!(f.update(Action::NextPane), None);
    assert_eq!(f.margin, Margin { horizontal: 0, vertical: 0 });
}

#[test]
fn project_label_shows_read_count() {
    let mut p = Project::default();
    p.name = "run1".to_string();
    p.read_count = 4012;
    assert_eq!(p.to_list_item(), "run1 (4012)");
    p.read_count = 0;
    assert_eq!(p.to_list_item(), "run1 (0)");
    p.read_count = u64::MAX;
    assert_eq!(p.to_list_item(), "run1 (18446744073709551615)");
    assert_eq!(p.format, RawBasecallsFormat::Pod5);
}

#[test]
fn defaults() {
    assert_eq!(ProjectType::default(), ProjectType::DNA(String::new()));
    assert_eq!(Mode::default(), Mode::Home);
}
