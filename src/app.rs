//! The state of the applet and its transitions.
//!
//! The shell owns the windows, the timer and the sampling of the host; it
//! turns each event into a `Message`, hands it to `App::update`, and performs
//! the `Action` that comes back. Popups are known here by a number that the
//! state hands out itself; the shell ties each number to its own window.
use vstd::prelude::*;

use crate::cpu::{aggregate, get_cpu_percentage, snapshot_wf, Cpu};

verus! {

/// An event the applet reacts to.
#[derive(Debug, Clone)]
pub enum Message {
    /// The panel button was pressed: open the popup, or close the open one.
    TogglePopup,
    /// The popup with this number was closed by the window system.
    PopupClosed(u64),
    /// A fresh snapshot was sampled; it replaces the current one.
    UpdateCpu(Vec<Cpu>),
}

impl Message {
    /// A message is well formed when the snapshot it carries, if any, is.
    pub open spec fn wf(self) -> bool {
        match self {
            Message::UpdateCpu(s) => snapshot_wf(s@),
            _ => true,
        }
    }
}

/// What the shell has to do after a transition.
#[derive(Debug, Clone, Copy, PartialEq, Eq, Structural)]
pub enum Action {
    /// Nothing beyond redrawing.
    Nothing,
    /// Open a popup window and tie it to this number.
    OpenPopup(u64),
    /// Close the popup window tied to this number.
    ClosePopup(u64),
}

/// The display state of the applet: the current snapshot and the open popup.
pub struct App {
    /// The number of the open popup, if one is open.
    pub popup: Option<u64>,
    /// The number the next popup to open will get.
    pub next_popup: u64,
    /// The current snapshot, one reading per logical CPU.
    pub cpus: Vec<Cpu>,
}

/// The number after `n`, wrapping to 0 after the largest `u64`.
pub open spec fn successor(n: u64) -> u64 {
    if n == u64::MAX {
        0
    } else {
        (n + 1) as u64
    }
}

impl App {
    /// The state is well formed when its snapshot is.
    pub open spec fn wf(&self) -> bool {
        snapshot_wf(self.cpus@)
    }

    /// The state at startup: the first snapshot and no popup.
    pub fn init(cpus: Vec<Cpu>) -> (r: App)
        requires
            snapshot_wf(cpus@),
        ensures
            r.wf(),
            r.popup.is_none(),
            r.next_popup == 0,
            r.cpus@ == cpus@,
    {
        App { popup: None, next_popup: 0, cpus }
    }

    /// A request of the window system to close the popup `id` becomes the
    /// message that the popup was closed.
    pub fn on_close_requested(&self, id: u64) -> (r: Option<Message>)
        ensures
            r matches Some(Message::PopupClosed(k)) && k == id,
    {
        Some(Message::PopupClosed(id))
    }

    /// The percentage shown on the panel for the current snapshot.
    pub fn percentage(&self) -> (r: u8)
        requires
            self.wf(),
        ensures
            r == aggregate(self.cpus@),
            r <= 100,
    {
        get_cpu_percentage(&self.cpus)
    }

    /// Applies one message to the state and says what the shell must do.
    ///
    /// Toggling closes the open popup, or opens a new one under a fresh
    /// number. A close notice clears the popup only when it names the open
    /// one; a notice about an older popup changes nothing. A new snapshot
    /// replaces the current one and leaves the popup as it is.
    pub fn update(&mut self, msg: Message) -> (r: Action)
        requires
            old(self).wf(),
            msg.wf(),
        ensures
            final(self).wf(),
            match msg {
                Message::TogglePopup => match old(self).popup {
                    Some(p) => {
                        &&& r == Action::ClosePopup(p)
                        &&& final(self).popup.is_none()
                        &&& final(self).next_popup == old(self).next_popup
                    },
                    None => {
                        &&& r == Action::OpenPopup(old(self).next_popup)
                        &&& final(self).popup == Some(old(self).next_popup)
                        &&& final(self).next_popup == successor(old(self).next_popup)
                    },
                },
                Message::PopupClosed(id) => {
                    &&& r == Action::Nothing
                    &&& final(self).popup == (if old(self).popup == Some(id) {
                        None
                    } else {
                        old(self).popup
                    })
                    &&& final(self).next_popup == old(self).next_popup
                },
                Message::UpdateCpu(s) => {
                    &&& r == Action::Nothing
                    &&& final(self).popup == old(self).popup
                    &&& final(self).next_popup == old(self).next_popup
                },
            },
            match msg {
                Message::UpdateCpu(s) => final(self).cpus@ == s@,
                _ => final(self).cpus@ == old(self).cpus@,
            },
    {
        match msg {
            Message::TogglePopup => {
                match self.popup {
                    Some(p) => {
                        self.popup = None;
                        Action::ClosePopup(p)
                    },
                    None => {
                        let p = self.next_popup;
                        self.popup = Some(p);
                        self.next_popup = p.wrapping_add(1);
                        Action::OpenPopup(p)
                    },
                }
            },
            Message::PopupClosed(id) => {
                if let Some(p) = self.popup {
                    if p == id {
                        self.popup = None;
                    }
                }
                Action::Nothing
            },
            Message::UpdateCpu(s) => {
                self.cpus = s;
                Action::Nothing
            },
        }
    }
}

} // verus!
