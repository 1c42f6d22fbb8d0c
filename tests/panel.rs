use controlpanelgui::panel::{Binding, ControlAction, Field, PanelEvent, Record, ServiceSettings, Slot};
use controlpanelgui::settings::Settings;
use controlpanelgui::transform::{controls_title, status_icon, status_label, trust_icon, trust_label};

fn record(id: u64, name: &str, display_name: &str, is_vm: bool) -> Record {
    Record {
        id,
        name: name.to_string(),
        display_name: display_name.to_string(),
        status: 0,
        details: "details".to_string(),
        trust_level: 1,
        is_vm,
    }
}

fn name_bindings(p: &ServiceSettings) -> usize {
    p.bindings.iter().filter(|b| b.slot == Slot::NameSlot1 || b.slot == Slot::NameSlot2).count()
}

#[test]
fn transforms_map_known_and_unknown_codes() {
    assert_eq!(status_label(0), "Running");
    assert_eq!(status_label(1), "Powered off");
    assert_eq!(status_label(2), "Paused");
    assert_eq!(status_label(7), "Powered off");
    assert_eq!(status_icon(0), "/org/gnome/controlpanelgui/icons/ellipse_green.svg");
    assert_eq!(status_icon(1), "/org/gnome/controlpanelgui/icons/ellipse_red.svg");
    assert_eq!(status_icon(2), "/org/gnome/controlpanelgui/icons/ellipse_yellow.svg");
    assert_eq!(status_icon(255), "/org/gnome/controlpanelgui/icons/ellipse_red.svg");
    assert_eq!(trust_label(0), "Secure!");
    assert_eq!(trust_label(1), "Security warning!");
    assert_eq!(trust_label(2), "Security alert!");
    assert_eq!(trust_label(3), "Secure!");
    assert_eq!(trust_icon(1), "/org/gnome/controlpanelgui/icons/security_warning.svg");
    assert_eq!(trust_icon(9), trust_icon(0));
    assert_eq!(controls_title(true), "VM Controls");
    assert_eq!(controls_title(false), "Service Controls");
}

#[test]
fn rebind_keeps_only_new_record() {
    let mut p = ServiceSettings::new();
    let a = record(1, "a", "A", true);
    let mut b = record(2, "b", "B", false);
    p.bind(&a);
    p.bind(&b);
    assert!(p.bindings.iter().all(|x: &Binding| x.source == 2));
    let mut a2 = record(1, "changed", "Changed", true);
    a2.status = 2;
    p.notify(&a2, Field::Status);
    assert_eq!(p.status_label, "Running");
    assert_eq!(p.name_slot_1, "b");
    b.status = 2;
    p.notify(&b, Field::Status);
    assert_eq!(p.status_label, "Paused");
}

#[test]
fn unbind_empties_set_and_second_slot() {
    let mut p = ServiceSettings::new();
    p.bind(&record(1, "vm1", "VM One", true));
    assert_eq!(p.name_slot_2, "vm1");
    let released = p.unbind();
    assert_eq!(released.len(), 9);
    assert!(p.bindings.is_empty());
    assert_eq!(p.name_slot_2, "");
    assert!(p.unbind().is_empty());
}

#[test]
fn bind_twice_same_size() {
    let mut p = ServiceSettings::new();
    let a = record(1, "a", "A", false);
    p.bind(&a);
    let once = p.bindings.len();
    p.bind(&a);
    assert_eq!(p.bindings.len(), once);
    assert_eq!(once, 8);
}

#[test]
fn vm_binds_two_names_service_one() {
    let mut p = ServiceSettings::new();
    p.bind(&record(1, "vm1", "VM One", true));
    assert_eq!(name_bindings(&p), 2);
    assert_eq!(p.name_slot_1, "VM One");
    assert!(p.audio_visible);
    p.bind(&record(2, "svc", "Svc", false));
    assert_eq!(name_bindings(&p), 1);
    assert_eq!(p.name_slot_2, "");
    assert!(!p.audio_visible);
    assert_eq!(p.control_label, "Service Controls");
}

#[test]
fn start_emits_one_control_event() {
    let mut p = ServiceSettings::new();
    p.bind(&record(1, "svc1", "Service One", false));
    p.on_start_clicked();
    let events = p.take_events();
    assert_eq!(events.len(), 1);
    match &events[0] {
        PanelEvent::Control { kind, target_name, target_display_name } => {
            assert_eq!(*kind, ControlAction::Start);
            assert_eq!(target_name, "svc1");
            assert_eq!(target_display_name, "Service One");
        }
        _ => panic!("expected a control event"),
    }
    assert!(p.take_events().is_empty());
}

#[test]
fn audio_events_carry_payload() {
    let mut p = ServiceSettings::new();
    p.on_mic_changed(3);
    p.on_speaker_changed(5);
    p.on_pause_clicked();
    p.on_shutdown_clicked();
    let events = p.take_events();
    assert_eq!(events.len(), 4);
    assert!(matches!(events[0], PanelEvent::MicChanged(3)));
    assert!(matches!(events[1], PanelEvent::SpeakerChanged(5)));
    assert!(matches!(events[2], PanelEvent::Control { kind: ControlAction::Pause, .. }));
    assert!(matches!(events[3], PanelEvent::Control { kind: ControlAction::Shutdown, .. }));
}

fn selector() -> Settings {
    Settings::new(
        vec![Some("general".to_string()), Some("audio".to_string()), None],
        vec!["general".to_string(), "audio".to_string()],
    )
}

#[test]
fn selecting_row_shows_named_panel() {
    let mut s = selector();
    s.init();
    s.on_settings_row_selected(1);
    assert_eq!(s.visible, Some(1));
    assert_eq!(s.panels[1], "audio");
    s.on_settings_row_selected(2);
    assert_eq!(s.visible, Some(1));
    assert_eq!(s.selected, Some(2));
}

#[test]
fn init_selects_first_row() {
    let mut s = selector();
    s.init();
    assert_eq!(s.selected, Some(0));
    assert_eq!(s.visible, Some(0));
    let mut empty = Settings::new(vec![], vec!["general".to_string()]);
    empty.init();
    assert_eq!(empty.selected, None);
    assert_eq!(empty.visible, None);
    s.bind();
    assert!(s.bindings.is_empty());
}

#[test]
fn new_selects_first_row_and_shows_its_panel() {
    let s = selector();
    assert_eq!(s.selected, Some(0));
    assert_eq!(s.visible, Some(0));
    let unnamed = Settings::new(vec![None, Some("audio".to_string())], vec!["audio".to_string()]);
    assert_eq!(unnamed.selected, Some(0));
    assert_eq!(unnamed.visible, None);
}

#[test]
fn notify_keeps_layout_when_kind_changes() {
    let mut p = ServiceSettings::new();
    let mut r = record(1, "vm1", "VM One", true);
    p.bind(&r);
    let before = p.bindings.clone();
    r.is_vm = false;
    p.notify(&r, Field::IsVm);
    assert_eq!(p.bindings, before);
    assert_eq!(p.bindings.len(), 9);
    assert_eq!(p.name_slot_2, "vm1");
    assert_eq!(p.name_slot_1, "VM One");
    assert_eq!(p.control_label, "Service Controls");
    assert!(!p.audio_visible);
}

#[test]
fn notify_rewrites_only_slots_of_field() {
    let mut p = ServiceSettings::new();
    let mut r = record(1, "svc", "Svc", false);
    p.bind(&r);
    r.status = 2;
    r.trust_level = 2;
    r.details = "new".to_string();
    p.notify(&r, Field::Status);
    assert_eq!(p.status_label, "Paused");
    assert_eq!(p.status_icon, "/org/gnome/controlpanelgui/icons/ellipse_yellow.svg");
    assert_eq!(p.security_label, "Security warning!");
    assert_eq!(p.details_label, "details");
    p.notify(&r, Field::Details);
    assert_eq!(p.details_label, "new");
    r.name = "svc-renamed".to_string();
    p.notify(&r, Field::Name);
    assert_eq!(p.name_slot_1, "svc-renamed");
    assert_eq!(p.target_name, "svc-renamed");
}

#[test]
fn second_unbind_changes_nothing() {
    let mut p = ServiceSettings::new();
    p.bind(&record(1, "vm1", "VM One", true));
    p.unbind();
    let status = p.status_label.clone();
    let name = p.name_slot_1.clone();
    let visible = p.audio_visible;
    assert!(p.unbind().is_empty());
    assert!(p.bindings.is_empty());
    assert_eq!(p.name_slot_2, "");
    assert_eq!(p.status_label, status);
    assert_eq!(p.name_slot_1, name);
    assert_eq!(p.audio_visible, visible);
}

#[test]
fn control_keeps_pending_events_and_bindings() {
    let mut p = ServiceSettings::new();
    p.bind(&record(1, "vm1", "VM One", true));
    p.on_mic_changed(7);
    let bindings = p.bindings.clone();
    p.on_start_clicked();
    assert_eq!(p.bindings, bindings);
    assert_eq!(p.name_slot_1, "VM One");
    let events = p.take_events();
    assert_eq!(events.len(), 2);
    assert!(matches!(events[0], PanelEvent::MicChanged(7)));
    match &events[1] {
        PanelEvent::Control { kind, target_name, target_display_name } => {
            assert_eq!(*kind, ControlAction::Start);
            assert_eq!(target_name, "vm1");
            assert_eq!(target_display_name, "VM One");
        }
        _ => panic!("expected a control event"),
    }
}
