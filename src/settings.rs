//! The settings navigation: a list of rows that selects the visible panel of
//! a stack.
use vstd::prelude::*;
use crate::panel::Binding;

verus! {

/// Whether some panel of `panels` is named `name`.
pub open spec fn names_panel(panels: Seq<String>, name: Seq<char>) -> bool {
    exists|k: int| 0 <= k < panels.len() && panels[k]@ == name
}

/// Whether `visible` shows the panel that `row` names, where it names one.
pub open spec fn shows_panel_of(row: Option<String>, panels: Seq<String>, visible: Option<usize>) -> bool {
    match row {
        Some(n) => names_panel(panels, n@) ==> (visible matches Some(k) && k < panels.len()
            && panels[k as int]@ == n@),
        None => true,
    }
}

/// A list of rows, each naming a panel or not, beside a stack of named panels.
pub struct Settings {
    pub rows: Vec<Option<String>>,
    pub panels: Vec<String>,
    pub selected: Option<usize>,
    pub visible: Option<usize>,
    pub bindings: Vec<Binding>,
}

impl Settings {
    /// Well formed: the selection and the visible panel stand in range.
    pub open spec fn wf(&self) -> bool {
        &&& (self.selected matches Some(i) ==> i < self.rows@.len())
        &&& (self.visible matches Some(k) ==> k < self.panels@.len())
    }

    /// A selector over `rows` and `panels`. It selects the first row, if
    /// there is one, so that a panel shows from the start.
    pub fn new(rows: Vec<Option<String>>, panels: Vec<String>) -> (r: Self)
        ensures
            r.wf(),
            r.rows@ == rows@,
            r.panels@ == panels@,
            r.bindings@.len() == 0,
            rows@.len() == 0 ==> r.selected is None && r.visible is None,
            rows@.len() > 0 ==> r.selected == Some(0usize) && shows_panel_of(rows@[0], panels@, r.visible),
    {
        let mut r = Settings { rows, panels, selected: None, visible: None, bindings: Vec::new() };
        r.init();
        r
    }

    /// Selects `row` and shows the panel it names; a row without a name, or
    /// one that names no panel, leaves the visible panel as it was.
    pub fn on_settings_row_selected(&mut self, row: usize)
        requires
            old(self).wf(),
            row < old(self).rows@.len(),
        ensures
            final(self).wf(),
            final(self).selected == Some(row),
            final(self).rows == old(self).rows,
            final(self).panels == old(self).panels,
            final(self).bindings == old(self).bindings,
            match old(self).rows@[row as int] {
                Some(n) => if names_panel(old(self).panels@, n@) {
                    final(self).visible matches Some(k) && old(self).panels@[k as int]@ == n@
                } else {
                    final(self).visible == old(self).visible
                },
                None => final(self).visible == old(self).visible,
            },
    {
        self.selected = Some(row);
        match &self.rows[row] {
            Some(name) => {
                let mut k: usize = 0;
                while k < self.panels.len()
                    invariant
                        0 <= k <= self.panels@.len(),
                        self.selected == Some(row),
                        row < self.rows@.len(),
                        self.rows@[row as int] == Some(*name),
                        self.visible == old(self).visible,
                        self.rows == old(self).rows,
                        self.panels == old(self).panels,
                        self.bindings == old(self).bindings,
                        self.wf(),
                        forall|j: int| 0 <= j < k ==> self.panels@[j]@ != name@,
                    decreases self.panels@.len() - k,
                {
                    if self.panels[k] == *name {
                        self.visible = Some(k);
                        return;
                    }
                    k = k + 1;
                }
            },
            None => {},
        }
    }

    /// Selects the first row, if there is one.
    pub fn init(&mut self)
        requires
            old(self).wf(),
        ensures
            final(self).wf(),
            final(self).rows == old(self).rows,
            final(self).panels == old(self).panels,
            final(self).bindings == old(self).bindings,
            old(self).rows@.len() == 0 ==> *final(self) == *old(self),
            old(self).rows@.len() > 0 ==> final(self).selected == Some(0usize),
            old(self).rows@.len() > 0 ==> shows_panel_of(old(self).rows@[0], old(self).panels@, final(self).visible),
    {
        if self.rows.len() > 0 {
            self.on_settings_row_selected(0);
        }
    }

    /// Releases the active bindings of the navigation, of which it makes none.
    pub fn unbind(&mut self)
        ensures
            final(self).bindings@.len() == 0,
            final(self).rows == old(self).rows,
            final(self).panels == old(self).panels,
            final(self).selected == old(self).selected,
            final(self).visible == old(self).visible,
    {
        self.bindings.clear();
    }

    /// Unbinds; the navigation binds no field of its own.
    pub fn bind(&mut self)
        ensures
            final(self).bindings@.len() == 0,
            final(self).rows == old(self).rows,
            final(self).panels == old(self).panels,
            final(self).selected == old(self).selected,
            final(self).visible == old(self).visible,
    {
        self.unbind();
    }
}

} // verus!
