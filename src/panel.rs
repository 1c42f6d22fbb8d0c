//! The service panel: its active binding set, the values its widgets show,
//! and the control events it emits.
use vstd::prelude::*;
use crate::transform::{
    controls_text, controls_title, status_icon, status_icon_path, status_label, status_text,
    trust_icon, trust_icon_path, trust_label, trust_text,
};

verus! {

/// A field of a service or VM record.
#[derive(Clone, Copy, Debug, PartialEq, Eq, Structural)]
pub enum Field {
    Name,
    DisplayName,
    Status,
    Details,
    TrustLevel,
    IsVm,
}

/// A widget property of the panel that a binding writes.
#[derive(Clone, Copy, Debug, PartialEq, Eq, Structural)]
pub enum Slot {
    NameSlot1,
    NameSlot2,
    StatusLabel,
    StatusIcon,
    DetailsLabel,
    SecurityIcon,
    SecurityLabel,
    ControlLabel,
    AudioVisible,
}

/// A live link from a field of the record `source` to a slot of the panel.
#[derive(Clone, Copy, Debug, PartialEq, Eq, Structural)]
pub struct Binding {
    pub source: u64,
    pub field: Field,
    pub slot: Slot,
}

/// A service or VM record as the panel reads it.
pub struct Record {
    pub id: u64,
    pub name: String,
    pub display_name: String,
    pub status: u8,
    pub details: String,
    pub trust_level: u8,
    pub is_vm: bool,
}

/// A user intent on the shown service or VM.
#[derive(Clone, Copy, Debug, PartialEq, Eq, Structural)]
pub enum ControlAction {
    Start,
    Shutdown,
    Pause,
}

/// An event that the panel emits towards its controller.
pub enum PanelEvent {
    Control { kind: ControlAction, target_name: String, target_display_name: String },
    MicChanged(u32),
    SpeakerChanged(u32),
}

/// The bindings made for a record: two name slots for a VM, one for a service,
/// then the status, details, trust and control bindings.
pub open spec fn binding_plan(source: u64, is_vm: bool) -> Seq<Binding> {
    let names = if is_vm {
        seq![
            Binding { source, field: Field::DisplayName, slot: Slot::NameSlot1 },
            Binding { source, field: Field::Name, slot: Slot::NameSlot2 },
        ]
    } else {
        seq![Binding { source, field: Field::Name, slot: Slot::NameSlot1 }]
    };
    names + seq![
        Binding { source, field: Field::Status, slot: Slot::StatusLabel },
        Binding { source, field: Field::Status, slot: Slot::StatusIcon },
        Binding { source, field: Field::Details, slot: Slot::DetailsLabel },
        Binding { source, field: Field::TrustLevel, slot: Slot::SecurityIcon },
        Binding { source, field: Field::TrustLevel, slot: Slot::SecurityLabel },
        Binding { source, field: Field::IsVm, slot: Slot::ControlLabel },
        Binding { source, field: Field::IsVm, slot: Slot::AudioVisible },
    ]
}

/// Whether a binding writes one of the two name slots.
pub open spec fn is_name_binding(b: Binding) -> bool {
    b.slot == Slot::NameSlot1 || b.slot == Slot::NameSlot2
}

/// The number of name bindings in a binding set.
pub open spec fn name_binding_count(s: Seq<Binding>) -> nat
    decreases s.len(),
{
    if s.len() == 0 {
        0
    } else {
        name_binding_count(s.drop_last()) + if is_name_binding(s.last()) { 1nat } else { 0nat }
    }
}

/// Text that a name slot bound to `field` shows for `r`.
pub open spec fn name_text(r: &Record, field: Field) -> Seq<char> {
    if field == Field::DisplayName { r.display_name@ } else { r.name@ }
}

/// Whether one of the first `n` bindings of `bs` carries `field` of record
/// `id` to `slot`.
pub open spec fn feeds(bs: Seq<Binding>, n: int, id: u64, field: Field, slot: Slot) -> bool {
    exists|j: int| 0 <= j < n && #[trigger] bs[j] == (Binding { source: id, field, slot })
}

/// A display panel for one service or VM record.
pub struct ServiceSettings {
    pub bindings: Vec<Binding>,
    pub name_slot_1: String,
    pub name_slot_2: String,
    pub status_label: String,
    pub status_icon: String,
    pub details_label: String,
    pub security_icon: String,
    pub security_label: String,
    pub control_label: String,
    pub audio_visible: bool,
    pub target_name: String,
    pub target_display_name: String,
    pub events: Vec<PanelEvent>,
}

impl ServiceSettings {
    /// Whether the slots the bindings of `self` feed show the current fields of `r`.
    pub open spec fn shows(&self, r: &Record) -> bool {
        &&& self.bindings@ == binding_plan(r.id, r.is_vm)
        &&& self.name_slot_1@ == (if r.is_vm { r.display_name@ } else { r.name@ })
        &&& self.name_slot_2@ == (if r.is_vm { r.name@ } else { Seq::<char>::empty() })
        &&& self.status_label@ == status_text(r.status)
        &&& self.status_icon@ == status_icon_path(r.status)
        &&& self.details_label@ == r.details@
        &&& self.security_icon@ == trust_icon_path(r.trust_level)
        &&& self.security_label@ == trust_text(r.trust_level)
        &&& self.control_label@ == controls_text(r.is_vm)
        &&& self.audio_visible == r.is_vm
        &&& self.target_name@ == r.name@
        &&& self.target_display_name@ == r.display_name@
    }

    /// Whether `self` holds a record of `id`.
    pub open spec fn bound_to(&self, id: u64) -> bool {
        exists|i: int| 0 <= i < self.bindings@.len() && self.bindings@[i].source == id
    }

    /// Whether `slot` shows the transformed value of `field` of `r`.
    pub open spec fn presents(&self, slot: Slot, field: Field, r: &Record) -> bool {
        match slot {
            Slot::NameSlot1 => self.name_slot_1@ == name_text(r, field),
            Slot::NameSlot2 => self.name_slot_2@ == name_text(r, field),
            Slot::StatusLabel => self.status_label@ == status_text(r.status),
            Slot::StatusIcon => self.status_icon@ == status_icon_path(r.status),
            Slot::DetailsLabel => self.details_label@ == r.details@,
            Slot::SecurityIcon => self.security_icon@ == trust_icon_path(r.trust_level),
            Slot::SecurityLabel => self.security_label@ == trust_text(r.trust_level),
            Slot::ControlLabel => self.control_label@ == controls_text(r.is_vm),
            Slot::AudioVisible => self.audio_visible == r.is_vm,
        }
    }

    /// Whether `self` and `o` show the same value in `slot`.
    pub open spec fn same_slot(&self, o: &Self, slot: Slot) -> bool {
        match slot {
            Slot::NameSlot1 => self.name_slot_1 == o.name_slot_1,
            Slot::NameSlot2 => self.name_slot_2 == o.name_slot_2,
            Slot::StatusLabel => self.status_label == o.status_label,
            Slot::StatusIcon => self.status_icon == o.status_icon,
            Slot::DetailsLabel => self.details_label == o.details_label,
            Slot::SecurityIcon => self.security_icon == o.security_icon,
            Slot::SecurityLabel => self.security_label == o.security_label,
            Slot::ControlLabel => self.control_label == o.control_label,
            Slot::AudioVisible => self.audio_visible == o.audio_visible,
        }
    }

    /// Whether `self` and `o` agree on everything but the pending events.
    pub open spec fn same_display(&self, o: &Self) -> bool {
        &&& self.bindings == o.bindings
        &&& self.name_slot_1 == o.name_slot_1
        &&& self.name_slot_2 == o.name_slot_2
        &&& self.status_label == o.status_label
        &&& self.status_icon == o.status_icon
        &&& self.details_label == o.details_label
        &&& self.security_icon == o.security_icon
        &&& self.security_label == o.security_label
        &&& self.control_label == o.control_label
        &&& self.audio_visible == o.audio_visible
        &&& self.target_name == o.target_name
        &&& self.target_display_name == o.target_display_name
    }

    /// Whether `self` is `before` with one more event: a control event of
    /// `kind` aimed at the target of `before`.
    pub open spec fn emitted_control(&self, before: &Self, kind: ControlAction) -> bool {
        &&& self.events@.len() == before.events@.len() + 1
        &&& self.events@.drop_last() == before.events@
        &&& self.events@.last() matches PanelEvent::Control { kind: k, target_name: n, target_display_name: d }
            && k == kind && n@ == before.target_name@ && d@ == before.target_display_name@
        &&& self.same_display(before)
    }

    /// An unbound panel with empty slots and no pending events.
    pub fn new() -> (r: Self)
        ensures
            r.bindings@.len() == 0,
            r.name_slot_1@.len() == 0,
            r.name_slot_2@.len() == 0,
            r.status_label@.len() == 0,
            r.status_icon@.len() == 0,
            r.details_label@.len() == 0,
            r.security_icon@.len() == 0,
            r.security_label@.len() == 0,
            r.control_label@.len() == 0,
            !r.audio_visible,
            r.target_name@.len() == 0,
            r.target_display_name@.len() == 0,
            r.events@.len() == 0,
    {
        ServiceSettings {
            bindings: Vec::new(),
            name_slot_1: String::new(),
            name_slot_2: String::new(),
            status_label: String::new(),
            status_icon: String::new(),
            details_label: String::new(),
            security_icon: String::new(),
            security_label: String::new(),
            control_label: String::new(),
            audio_visible: false,
            target_name: String::new(),
            target_display_name: String::new(),
            events: Vec::new(),
        }
    }

    /// Releases every active binding, clears the secondary name slot and the
    /// control target, and returns the released bindings.
    pub fn unbind(&mut self) -> (released: Vec<Binding>)
        ensures
            released@ == old(self).bindings@,
            final(self).bindings@.len() == 0,
            final(self).name_slot_2@.len() == 0,
            final(self).target_name@.len() == 0,
            final(self).target_display_name@.len() == 0,
            final(self).name_slot_1 == old(self).name_slot_1,
            final(self).status_label == old(self).status_label,
            final(self).status_icon == old(self).status_icon,
            final(self).details_label == old(self).details_label,
            final(self).security_icon == old(self).security_icon,
            final(self).security_label == old(self).security_label,
            final(self).control_label == old(self).control_label,
            final(self).audio_visible == old(self).audio_visible,
            final(self).events == old(self).events,
    {
        let mut released: Vec<Binding> = Vec::new();
        std::mem::swap(&mut released, &mut self.bindings);
        self.name_slot_2 = String::new();
        self.target_name = String::new();
        self.target_display_name = String::new();
        released
    }

    /// Unbinds, then binds every declared slot to `record` and shows its
    /// current fields.
    pub fn bind(&mut self, record: &Record)
        ensures
            final(self).shows(record),
            final(self).events == old(self).events,
    {
        let _released = self.unbind();
        let id = record.id;
        if record.is_vm {
            self.bindings.push(Binding { source: id, field: Field::DisplayName, slot: Slot::NameSlot1 });
            self.name_slot_1 = record.display_name.clone();
            self.bindings.push(Binding { source: id, field: Field::Name, slot: Slot::NameSlot2 });
            self.name_slot_2 = record.name.clone();
        } else {
            self.bindings.push(Binding { source: id, field: Field::Name, slot: Slot::NameSlot1 });
            self.name_slot_1 = record.name.clone();
            assert(self.name_slot_2@ =~= Seq::<char>::empty());
        }
        self.bindings.push(Binding { source: id, field: Field::Status, slot: Slot::StatusLabel });
        self.status_label = status_label(record.status).to_owned();
        self.bindings.push(Binding { source: id, field: Field::Status, slot: Slot::StatusIcon });
        self.status_icon = status_icon(record.status).to_owned();
        self.bindings.push(Binding { source: id, field: Field::Details, slot: Slot::DetailsLabel });
        self.details_label = record.details.clone();
        self.bindings.push(Binding { source: id, field: Field::TrustLevel, slot: Slot::SecurityIcon });
        self.security_icon = trust_icon(record.trust_level).to_owned();
        self.bindings.push(Binding { source: id, field: Field::TrustLevel, slot: Slot::SecurityLabel });
        self.security_label = trust_label(record.trust_level).to_owned();
        self.bindings.push(Binding { source: id, field: Field::IsVm, slot: Slot::ControlLabel });
        self.control_label = controls_title(record.is_vm).to_owned();
        self.bindings.push(Binding { source: id, field: Field::IsVm, slot: Slot::AudioVisible });
        self.audio_visible = record.is_vm;
        self.target_name = record.name.clone();
        self.target_display_name = record.display_name.clone();
        assert(self.bindings@ =~= binding_plan(record.id, record.is_vm));
    }

    /// Writes into `slot` the transformed value of `field` of `r`.
    fn show_field(&mut self, slot: Slot, field: Field, r: &Record)
        ensures
            final(self).presents(slot, field, r),
            forall|s: Slot| s != slot ==> final(self).same_slot(old(self), s),
            final(self).bindings == old(self).bindings,
            final(self).events == old(self).events,
            final(self).target_name == old(self).target_name,
            final(self).target_display_name == old(self).target_display_name,
    {
        match slot {
            Slot::NameSlot1 => {
                self.name_slot_1 = if field == Field::DisplayName {
                    r.display_name.clone()
                } else {
                    r.name.clone()
                };
            },
            Slot::NameSlot2 => {
                self.name_slot_2 = if field == Field::DisplayName {
                    r.display_name.clone()
                } else {
                    r.name.clone()
                };
            },
            Slot::StatusLabel => {
                self.status_label = status_label(r.status).to_owned();
            },
            Slot::StatusIcon => {
                self.status_icon = status_icon(r.status).to_owned();
            },
            Slot::DetailsLabel => {
                self.details_label = r.details.clone();
            },
            Slot::SecurityIcon => {
                self.security_icon = trust_icon(r.trust_level).to_owned();
            },
            Slot::SecurityLabel => {
                self.security_label = trust_label(r.trust_level).to_owned();
            },
            Slot::ControlLabel => {
                self.control_label = controls_title(r.is_vm).to_owned();
            },
            Slot::AudioVisible => {
                self.audio_visible = r.is_vm;
            },
        }
    }

    /// Delivers a change of `field` on `record`. A panel bound to that record
    /// rewrites the slots bound to `field` and keeps its bindings; the name
    /// layout chosen at bind time stays. Any other panel is left as it was.
    pub fn notify(&mut self, record: &Record, field: Field)
        ensures
            !old(self).bound_to(record.id) ==> *final(self) == *old(self),
            final(self).bindings == old(self).bindings,
            final(self).events == old(self).events,
            forall|s: Slot| feeds(old(self).bindings@, old(self).bindings@.len() as int, record.id, field, s)
                ==> final(self).presents(s, field, record),
            forall|s: Slot| !feeds(old(self).bindings@, old(self).bindings@.len() as int, record.id, field, s)
                ==> final(self).same_slot(old(self), s),
            old(self).bound_to(record.id) && field == Field::Name
                ==> final(self).target_name@ == record.name@,
            !(old(self).bound_to(record.id) && field == Field::Name)
                ==> final(self).target_name == old(self).target_name,
            old(self).bound_to(record.id) && field == Field::DisplayName
                ==> final(self).target_display_name@ == record.display_name@,
            !(old(self).bound_to(record.id) && field == Field::DisplayName)
                ==> final(self).target_display_name == old(self).target_display_name,
    {
        let mut found = false;
        let mut i: usize = 0;
        while i < self.bindings.len()
            invariant
                0 <= i <= self.bindings@.len(),
                found == exists|j: int| 0 <= j < i && self.bindings@[j].source == record.id,
            decreases self.bindings@.len() - i,
        {
            if self.bindings[i].source == record.id {
                found = true;
            }
            i = i + 1;
        }
        if !found {
            proof {
                assert forall|s: Slot| !feeds(self.bindings@, self.bindings@.len() as int, record.id, field, s) by {
                    if feeds(self.bindings@, self.bindings@.len() as int, record.id, field, s) {
                        let j = choose|j: int| 0 <= j < self.bindings@.len()
                            && #[trigger] self.bindings@[j] == (Binding { source: record.id, field, slot: s });
                        assert(self.bindings@[j].source == record.id);
                    }
                }
            }
            return;
        }
        let mut i: usize = 0;
        while i < self.bindings.len()
            invariant
                0 <= i <= self.bindings@.len(),
                self.bindings == old(self).bindings,
                self.events == old(self).events,
                self.target_name == old(self).target_name,
                self.target_display_name == old(self).target_display_name,
                forall|s: Slot| feeds(self.bindings@, i as int, record.id, field, s)
                    ==> self.presents(s, field, record),
                forall|s: Slot| !feeds(self.bindings@, i as int, record.id, field, s)
                    ==> self.same_slot(old(self), s),
            decreases self.bindings@.len() - i,
        {
            let b = self.bindings[i];
            let ghost before = *self;
            if b.source == record.id && b.field == field {
                self.show_field(b.slot, field, record);
            }
            proof {
                let wrote = b.source == record.id && b.field == field;
                assert forall|s: Slot| feeds(self.bindings@, i + 1, record.id, field, s)
                    implies self.presents(s, field, record) by {
                    if !(wrote && s == b.slot) {
                        let j = choose|j: int| 0 <= j < i + 1
                            && #[trigger] self.bindings@[j] == (Binding { source: record.id, field, slot: s });
                        assert(j != i);
                        assert(0 <= j < i && self.bindings@[j] == (Binding { source: record.id, field, slot: s }));
                        assert(feeds(self.bindings@, i as int, record.id, field, s));
                        assert(before.presents(s, field, record));
                        if wrote {
                            assert(self.same_slot(&before, s));
                        }
                    }
                }
                assert forall|s: Slot| !feeds(self.bindings@, i + 1, record.id, field, s)
                    implies self.same_slot(old(self), s) by {
                    if feeds(self.bindings@, i as int, record.id, field, s) {
                        let j = choose|j: int| 0 <= j < i
                            && #[trigger] self.bindings@[j] == (Binding { source: record.id, field, slot: s });
                        assert(0 <= j < i + 1 && self.bindings@[j] == (Binding { source: record.id, field, slot: s }));
                    }
                    assert(before.same_slot(old(self), s));
                    if wrote {
                        if b.slot == s {
                            assert(self.bindings@[i as int] == (Binding { source: record.id, field, slot: s }));
                        }
                        assert(self.same_slot(&before, s));
                    }
                }
            }
            i = i + 1;
        }
        let ghost written = *self;
        if field == Field::Name {
            self.target_name = record.name.clone();
        }
        if field == Field::DisplayName {
            self.target_display_name = record.display_name.clone();
        }
        proof {
            let n = self.bindings@.len() as int;
            assert forall|s: Slot| feeds(self.bindings@, n, record.id, field, s)
                implies self.presents(s, field, record) by {
                assert(written.presents(s, field, record));
            }
            assert forall|s: Slot| !feeds(self.bindings@, n, record.id, field, s)
                implies self.same_slot(old(self), s) by {
                assert(written.same_slot(old(self), s));
            }
        }
    }

    /// Emits one control event for the shown record.
    pub fn emit_control(&mut self, kind: ControlAction)
        ensures
            final(self).emitted_control(old(self), kind),
    {
        let ev = PanelEvent::Control {
            kind,
            target_name: self.target_name.clone(),
            target_display_name: self.target_display_name.clone(),
        };
        self.events.push(ev);
        assert(self.events@.drop_last() =~= old(self).events@);
    }

    /// The start control was pressed.
    pub fn on_start_clicked(&mut self)
        ensures
            final(self).emitted_control(old(self), ControlAction::Start),
    {
        self.emit_control(ControlAction::Start);
    }

    /// The shutdown control was pressed.
    pub fn on_shutdown_clicked(&mut self)
        ensures
            final(self).emitted_control(old(self), ControlAction::Shutdown),
    {
        self.emit_control(ControlAction::Shutdown);
    }

    /// The pause control was pressed.
    pub fn on_pause_clicked(&mut self)
        ensures
            final(self).emitted_control(old(self), ControlAction::Pause),
    {
        self.emit_control(ControlAction::Pause);
    }

    /// The microphone device index changed.
    pub fn on_mic_changed(&mut self, value: u32)
        ensures
            final(self).events@ == old(self).events@.push(PanelEvent::MicChanged(value)),
    {
        self.events.push(PanelEvent::MicChanged(value));
    }

    /// The speaker device index changed.
    pub fn on_speaker_changed(&mut self, value: u32)
        ensures
            final(self).events@ == old(self).events@.push(PanelEvent::SpeakerChanged(value)),
    {
        self.events.push(PanelEvent::SpeakerChanged(value));
    }

    /// Hands out the pending events, oldest first.
    pub fn take_events(&mut self) -> (r: Vec<PanelEvent>)
        ensures
            r@ == old(self).events@,
            final(self).events@.len() == 0,
            final(self).bindings == old(self).bindings,
    {
        let mut r: Vec<PanelEvent> = Vec::new();
        std::mem::swap(&mut r, &mut self.events);
        r
    }
}

/// Binding a VM record makes two name bindings; binding a service makes one.
pub proof fn lemma_name_bindings(source: u64, is_vm: bool)
    ensures
        name_binding_count(binding_plan(source, is_vm)) == if is_vm { 2nat } else { 1nat },
{
    reveal_with_fuel(name_binding_count, 10);
    let p = binding_plan(source, is_vm);
    assert(p.drop_last().drop_last().drop_last().drop_last().drop_last().drop_last().drop_last().len()
        == if is_vm { 2nat } else { 1nat });
}

/// While a panel shows `r`, each field of `r` feeds the slots that the
/// binding table gives it, and the second name slot only for a VM.
pub proof fn lemma_live_fields(p: ServiceSettings, r: Record)
    requires
        p.shows(&r),
    ensures
        ({
            let bs = p.bindings@;
            let n = bs.len() as int;
            &&& feeds(bs, n, r.id, Field::Status, Slot::StatusLabel)
            &&& feeds(bs, n, r.id, Field::Status, Slot::StatusIcon)
            &&& feeds(bs, n, r.id, Field::Details, Slot::DetailsLabel)
            &&& feeds(bs, n, r.id, Field::TrustLevel, Slot::SecurityIcon)
            &&& feeds(bs, n, r.id, Field::TrustLevel, Slot::SecurityLabel)
            &&& feeds(bs, n, r.id, Field::IsVm, Slot::ControlLabel)
            &&& feeds(bs, n, r.id, Field::IsVm, Slot::AudioVisible)
            &&& r.is_vm ==> feeds(bs, n, r.id, Field::DisplayName, Slot::NameSlot1)
            &&& r.is_vm ==> feeds(bs, n, r.id, Field::Name, Slot::NameSlot2)
            &&& !r.is_vm ==> feeds(bs, n, r.id, Field::Name, Slot::NameSlot1)
            &&& !r.is_vm ==> forall|f: Field| !feeds(bs, n, r.id, f, Slot::NameSlot2)
        }),
{
    let bs = p.bindings@;
    let k: int = if r.is_vm { 2 } else { 1 };
    assert(bs[k] == (Binding { source: r.id, field: Field::Status, slot: Slot::StatusLabel }));
    assert(bs[k + 1] == (Binding { source: r.id, field: Field::Status, slot: Slot::StatusIcon }));
    assert(bs[k + 2] == (Binding { source: r.id, field: Field::Details, slot: Slot::DetailsLabel }));
    assert(bs[k + 3] == (Binding { source: r.id, field: Field::TrustLevel, slot: Slot::SecurityIcon }));
    assert(bs[k + 4] == (Binding { source: r.id, field: Field::TrustLevel, slot: Slot::SecurityLabel }));
    assert(bs[k + 5] == (Binding { source: r.id, field: Field::IsVm, slot: Slot::ControlLabel }));
    assert(bs[k + 6] == (Binding { source: r.id, field: Field::IsVm, slot: Slot::AudioVisible }));
    if r.is_vm {
        assert(bs[0] == (Binding { source: r.id, field: Field::DisplayName, slot: Slot::NameSlot1 }));
        assert(bs[1] == (Binding { source: r.id, field: Field::Name, slot: Slot::NameSlot2 }));
    } else {
        assert(bs[0] == (Binding { source: r.id, field: Field::Name, slot: Slot::NameSlot1 }));
        assert forall|f: Field| !feeds(bs, bs.len() as int, r.id, f, Slot::NameSlot2) by {
            assert forall|j: int| 0 <= j < bs.len() implies bs[j].slot != Slot::NameSlot2 by {
                assert(j == 0 || j == 1 || j == 2 || j == 3 || j == 4 || j == 5 || j == 6 || j == 7);
            }
        }
    }
}

/// Binding the same record twice leaves as many bindings as binding it once.
pub proof fn lemma_bind_twice(p1: ServiceSettings, p2: ServiceSettings, r: Record)
    requires
        p1.shows(&r),
        p2.shows(&r),
    ensures
        p2.bindings@.len() == p1.bindings@.len(),
        p2.bindings@ == p1.bindings@,
{
}

/// After binding another record, every binding comes from it, and a change of
/// the record bound before reaches none of them.
pub proof fn lemma_rebind_drops_old(p: ServiceSettings, a: Record, b: Record)
    requires
        p.shows(&b),
        a.id != b.id,
    ensures
        forall|i: int| 0 <= i < p.bindings@.len() ==> p.bindings@[i].source == b.id,
        !p.bound_to(a.id),
{
    assert(forall|i: int| 0 <= i < p.bindings@.len() ==> p.bindings@[i].source == b.id);
}

} // verus!
