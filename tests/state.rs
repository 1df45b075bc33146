use cpu_applet::{Action, App, Cpu, Message};

fn reading(name: &str, usage: u16) -> Cpu {
    Cpu { name: name.to_string(), usage }
}

#[test]
fn init_has_no_popup() {
    let app = App::init(vec![reading("cpu0", 2500)]);
    assert_eq!(app.popup, None);
    assert_eq!(app.cpus.len(), 1);
    assert_eq!(app.percentage(), 25);
}

#[test]
fn toggle_opens_then_closes() {
    let mut app = App::init(vec![reading("cpu0", 2500)]);
    assert_eq!(app.update(Message::TogglePopup), Action::OpenPopup(0));
    assert_eq!(app.popup, Some(0));
    assert_eq!(app.update(Message::TogglePopup), Action::ClosePopup(0));
    assert_eq!(app.popup, None);
    assert_eq!(app.update(Message::TogglePopup), Action::OpenPopup(1));
    assert_eq!(app.popup, Some(1));
}

#[test]
fn close_notice_for_open_popup_clears_it() {
    let mut app = App::init(Vec::new());
    app.update(Message::TogglePopup);
    let msg = app.on_close_requested(0).unwrap();
    assert_eq!(app.update(msg), Action::Nothing);
    assert_eq!(app.popup, None);
    assert_eq!(app.update(Message::TogglePopup), Action::OpenPopup(1));
}

#[test]
fn close_notice_for_other_popup_is_ignored() {
    let mut app = App::init(Vec::new());
    app.update(Message::TogglePopup);
    app.update(Message::TogglePopup);
    app.update(Message::TogglePopup);
    assert_eq!(app.popup, Some(1));
    assert_eq!(app.update(Message::PopupClosed(0)), Action::Nothing);
    assert_eq!(app.popup, Some(1));
}

#[test]
fn new_snapshot_replaces_old_one() {
    let mut app = App::init(vec![reading("cpu0", 1000)]);
    app.update(Message::TogglePopup);
    let fresh = vec![reading("cpu0", 8000), reading("cpu1", 6000)];
    assert_eq!(app.update(Message::UpdateCpu(fresh)), Action::Nothing);
    assert_eq!(app.cpus.len(), 2);
    assert_eq!(app.cpus[1].name, "cpu1");
    assert_eq!(app.percentage(), 70);
    assert_eq!(app.popup, Some(0));
}

#[test]
fn popup_numbers_wrap_around() {
    let mut app = App::init(Vec::new());
    app.next_popup = u64::MAX;
    assert_eq!(app.update(Message::TogglePopup), Action::OpenPopup(u64::MAX));
    assert_eq!(app.next_popup, 0);
}
