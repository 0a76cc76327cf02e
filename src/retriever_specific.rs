//! The settings of the search itself: which templates to try, and where
//! the snapshot lives.
use vstd::prelude::*;

use crate::gui_input::{GuiError, GuiInput};
use crate::search::{ScriptTemplate, TemplateSelection};
use crate::text::{lemma_trim_keeps_bare_text, trim_to_string, trimmed};

verus! {

/// The data directory as typed, kept trimmed. Whether it names an existing
/// directory is found out by the caller, who can look at the file system.
#[derive(Debug)]
pub struct DataDirGuiData {
    data_dir: String,
    sanity: bool,
}

impl DataDirGuiData {
    pub fn new(value: String, is_existing_dir: bool) -> (r: Self)
        ensures
            r.value_spec() == trimmed(value@),
            r.sanity_spec() == is_existing_dir,
    {
        DataDirGuiData { data_dir: trim_to_string(value.as_str()), sanity: is_existing_dir }
    }
}

impl GuiInput for DataDirGuiData {
    closed spec fn value_spec(&self) -> Seq<char> {
        self.data_dir@
    }

    closed spec fn sanity_spec(&self) -> bool {
        self.sanity
    }

    fn is_sane(&self) -> (r: bool) {
        self.sanity
    }

    fn get_value(&self) -> (r: String) {
        self.data_dir.clone()
    }
}

/// The templates ticked and the data directory, as typed.
#[derive(Debug)]
pub struct RetrieverSpecificSettingFromGui {
    pub gui_p2pk: bool,
    pub gui_p2pkh: bool,
    pub gui_p2wpkh: bool,
    pub gui_p2shwpkh: bool,
    pub gui_p2tr: bool,
    pub gui_data_dir: DataDirGuiData,
}

impl RetrieverSpecificSettingFromGui {
    /// Every template ticked, and no data directory.
    pub fn new() -> (r: Self)
        ensures
            r.gui_p2pk && r.gui_p2pkh && r.gui_p2wpkh && r.gui_p2shwpkh && r.gui_p2tr,
            r.gui_data_dir.value_spec() == Seq::<char>::empty(),
            !r.gui_data_dir.sanity_spec(),
    {
        RetrieverSpecificSettingFromGui {
            gui_p2pk: true,
            gui_p2pkh: true,
            gui_p2wpkh: true,
            gui_p2shwpkh: true,
            gui_p2tr: true,
            gui_data_dir: {
                proof {
                    lemma_trim_keeps_bare_text(Seq::<char>::empty());
                }
                DataDirGuiData::new(String::new(), false)
            },
        }
    }
}

/// The settings in use.
#[derive(Debug)]
pub struct RetrieverSpecificSettingInUse {
    pub in_use_selected_descriptors: Vec<ScriptTemplate>,
    pub in_use_data_dir: String,
}

/// `[t]` when `on`, else nothing.
pub open spec fn if_ticked(on: bool, t: ScriptTemplate) -> Seq<ScriptTemplate> {
    if on {
        seq![t]
    } else {
        Seq::empty()
    }
}

/// The ticked templates, in the fixed template order.
pub open spec fn ticked_templates(g: &RetrieverSpecificSettingFromGui) -> Seq<ScriptTemplate> {
    if_ticked(g.gui_p2pk, ScriptTemplate::P2pk) + if_ticked(g.gui_p2pkh, ScriptTemplate::P2pkh)
        + if_ticked(g.gui_p2wpkh, ScriptTemplate::P2wpkh) + if_ticked(
        g.gui_p2shwpkh,
        ScriptTemplate::P2shwpkh,
    ) + if_ticked(g.gui_p2tr, ScriptTemplate::P2tr)
}

fn push_if_ticked(out: &mut Vec<ScriptTemplate>, on: bool, t: ScriptTemplate)
    ensures
        final(out)@ == old(out)@ + if_ticked(on, t),
{
    if on {
        out.push(t);
    }
    proof {
        assert(final(out)@ =~= old(out)@ + if_ticked(on, t));
    }
}

fn list_contains(list: &Vec<ScriptTemplate>, t: ScriptTemplate) -> (r: bool)
    ensures
        r == list@.contains(t),
{
    let mut i: usize = 0;
    while i < list.len()
        invariant
            i <= list.len(),
            forall|j: int| 0 <= j < i ==> list@[j] != t,
        decreases list.len() - i,
    {
        if list[i] == t {
            proof {
                assert(list@[i as int] == t);
            }
            return true;
        }
        i = i + 1;
    }
    false
}

/// The settings of the search: as typed, and, once acceptable and fixed,
/// as in use.
#[derive(Debug)]
pub struct RetrieverSpecificInput {
    gui_input: RetrieverSpecificSettingFromGui,
    in_use: Option<RetrieverSpecificSettingInUse>,
}

impl RetrieverSpecificInput {
    pub closed spec fn gui_spec(&self) -> &RetrieverSpecificSettingFromGui {
        &self.gui_input
    }

    /// The templates and data directory in use.
    pub closed spec fn in_use_spec(&self) -> Option<(Seq<ScriptTemplate>, Seq<char>)> {
        match self.in_use {
            Some(u) => Some((u.in_use_selected_descriptors@, u.in_use_data_dir@)),
            None => None,
        }
    }

    /// Whether template `t` is in use.
    pub open spec fn in_use_has(&self, t: ScriptTemplate) -> bool {
        match self.in_use_spec() {
            Some(u) => u.0.contains(t),
            None => false,
        }
    }

    /// At least one template ticked, and a data directory that exists.
    pub open spec fn gui_sane_spec(&self) -> bool {
        &&& (self.gui_spec().gui_p2pk || self.gui_spec().gui_p2pkh || self.gui_spec().gui_p2wpkh
            || self.gui_spec().gui_p2shwpkh || self.gui_spec().gui_p2tr)
        &&& self.gui_spec().gui_data_dir.sanity_spec()
    }

    pub fn new() -> (r: Self)
        ensures
            r.in_use_spec() is None,
            r.gui_spec().gui_p2pk && r.gui_spec().gui_p2pkh && r.gui_spec().gui_p2wpkh
                && r.gui_spec().gui_p2shwpkh && r.gui_spec().gui_p2tr,
            !r.gui_spec().gui_data_dir.sanity_spec(),
    {
        RetrieverSpecificInput { gui_input: RetrieverSpecificSettingFromGui::new(), in_use: None }
    }

    /// Puts the typed settings in use when they are acceptable: the ticked
    /// templates in the fixed order, and the data directory. Else nothing
    /// changes.
    pub fn gui_to_in_use(&mut self) -> (r: Result<(), GuiError>)
        ensures
            final(self).gui_spec() == old(self).gui_spec(),
            old(self).gui_sane_spec() ==> r is Ok && final(self).in_use_spec() == Some(
                (ticked_templates(old(self).gui_spec()), old(self).gui_spec().gui_data_dir.value_spec()),
            ),
            !old(self).gui_sane_spec() ==> r == Err::<(), GuiError>(GuiError::GuiInputIsInsane)
                && final(self).in_use_spec() == old(self).in_use_spec(),
    {
        if !self.is_gui_input_sane() {
            return Err(GuiError::GuiInputIsInsane);
        }
        let mut selected: Vec<ScriptTemplate> = Vec::new();
        proof {
            assert(selected@ =~= Seq::<ScriptTemplate>::empty());
        }
        push_if_ticked(&mut selected, self.gui_input.gui_p2pk, ScriptTemplate::P2pk);
        push_if_ticked(&mut selected, self.gui_input.gui_p2pkh, ScriptTemplate::P2pkh);
        push_if_ticked(&mut selected, self.gui_input.gui_p2wpkh, ScriptTemplate::P2wpkh);
        push_if_ticked(&mut selected, self.gui_input.gui_p2shwpkh, ScriptTemplate::P2shwpkh);
        push_if_ticked(&mut selected, self.gui_input.gui_p2tr, ScriptTemplate::P2tr);
        proof {
            assert(selected@ =~= ticked_templates(&self.gui_input));
        }
        self.in_use = Some(
            RetrieverSpecificSettingInUse {
                in_use_selected_descriptors: selected,
                in_use_data_dir: self.get_gui_data_dir(),
            },
        );
        Ok(())
    }

    pub fn set_p2pk_inclusion_from_gui_input(&mut self, p2pk_inclusion: bool)
        ensures
            *final(self).gui_spec() == (RetrieverSpecificSettingFromGui { gui_p2pk: p2pk_inclusion, ..*old(self).gui_spec() }),
            final(self).in_use_spec() == old(self).in_use_spec(),
    {
        self.gui_input.gui_p2pk = p2pk_inclusion;
    }

    pub fn set_p2pkh_inclusion_from_gui_input(&mut self, p2pkh_inclusion: bool)
        ensures
            *final(self).gui_spec() == (RetrieverSpecificSettingFromGui { gui_p2pkh: p2pkh_inclusion, ..*old(self).gui_spec() }),
            final(self).in_use_spec() == old(self).in_use_spec(),
    {
        self.gui_input.gui_p2pkh = p2pkh_inclusion;
    }

    pub fn set_p2wpkh_inclusion_from_gui_input(&mut self, p2wpkh_inclusion: bool)
        ensures
            *final(self).gui_spec() == (RetrieverSpecificSettingFromGui { gui_p2wpkh: p2wpkh_inclusion, ..*old(self).gui_spec() }),
            final(self).in_use_spec() == old(self).in_use_spec(),
    {
        self.gui_input.gui_p2wpkh = p2wpkh_inclusion;
    }

    pub fn set_p2shwpkh_inclusion_from_gui_input(&mut self, p2shwpkh_inclusion: bool)
        ensures
            *final(self).gui_spec() == (RetrieverSpecificSettingFromGui { gui_p2shwpkh: p2shwpkh_inclusion, ..*old(self).gui_spec() }),
            final(self).in_use_spec() == old(self).in_use_spec(),
    {
        self.gui_input.gui_p2shwpkh = p2shwpkh_inclusion;
    }

    pub fn set_p2tr_inclusion_from_gui_input(&mut self, p2tr_inclusion: bool)
        ensures
            *final(self).gui_spec() == (RetrieverSpecificSettingFromGui { gui_p2tr: p2tr_inclusion, ..*old(self).gui_spec() }),
            final(self).in_use_spec() == old(self).in_use_spec(),
    {
        self.gui_input.gui_p2tr = p2tr_inclusion;
    }

    /// Takes a typed data directory, with whether its trimmed text names an
    /// existing directory.
    pub fn set_data_dir_from_gui_input(&mut self, data_dir: String, is_existing_dir: bool)
        ensures
            final(self).gui_spec().gui_data_dir.value_spec() == trimmed(data_dir@),
            final(self).gui_spec().gui_data_dir.sanity_spec() == is_existing_dir,
            final(self).gui_spec().gui_p2pk == old(self).gui_spec().gui_p2pk,
            final(self).gui_spec().gui_p2pkh == old(self).gui_spec().gui_p2pkh,
            final(self).gui_spec().gui_p2wpkh == old(self).gui_spec().gui_p2wpkh,
            final(self).gui_spec().gui_p2shwpkh == old(self).gui_spec().gui_p2shwpkh,
            final(self).gui_spec().gui_p2tr == old(self).gui_spec().gui_p2tr,
            final(self).in_use_spec() == old(self).in_use_spec(),
    {
        self.gui_input.gui_data_dir = DataDirGuiData::new(data_dir, is_existing_dir);
    }

    pub fn get_gui_p2pk(&self) -> (r: bool)
        ensures
            r == self.gui_spec().gui_p2pk,
    {
        self.gui_input.gui_p2pk
    }

    pub fn get_gui_p2pkh(&self) -> (r: bool)
        ensures
            r == self.gui_spec().gui_p2pkh,
    {
        self.gui_input.gui_p2pkh
    }

    pub fn get_gui_p2wpkh(&self) -> (r: bool)
        ensures
            r == self.gui_spec().gui_p2wpkh,
    {
        self.gui_input.gui_p2wpkh
    }

    pub fn get_gui_p2shwpkh(&self) -> (r: bool)
        ensures
            r == self.gui_spec().gui_p2shwpkh,
    {
        self.gui_input.gui_p2shwpkh
    }

    pub fn get_gui_p2tr(&self) -> (r: bool)
        ensures
            r == self.gui_spec().gui_p2tr,
    {
        self.gui_input.gui_p2tr
    }

    pub fn get_gui_data_dir(&self) -> (r: String)
        ensures
            r@ == self.gui_spec().gui_data_dir.value_spec(),
    {
        self.gui_input.gui_data_dir.get_value()
    }

    fn get_in_use_template(&self, t: ScriptTemplate) -> (r: bool)
        ensures
            r == self.in_use_has(t),
    {
        match &self.in_use {
            Some(in_use) => list_contains(&in_use.in_use_selected_descriptors, t),
            None => false,
        }
    }

    pub fn get_in_use_p2pk(&self) -> (r: bool)
        ensures
            r == self.in_use_has(ScriptTemplate::P2pk),
    {
        self.get_in_use_template(ScriptTemplate::P2pk)
    }

    pub fn get_in_use_p2pkh(&self) -> (r: bool)
        ensures
            r == self.in_use_has(ScriptTemplate::P2pkh),
    {
        self.get_in_use_template(ScriptTemplate::P2pkh)
    }

    pub fn get_in_use_p2wpkh(&self) -> (r: bool)
        ensures
            r == self.in_use_has(ScriptTemplate::P2wpkh),
    {
        self.get_in_use_template(ScriptTemplate::P2wpkh)
    }

    pub fn get_in_use_p2shwpkh(&self) -> (r: bool)
        ensures
            r == self.in_use_has(ScriptTemplate::P2shwpkh),
    {
        self.get_in_use_template(ScriptTemplate::P2shwpkh)
    }

    pub fn get_in_use_p2tr(&self) -> (r: bool)
        ensures
            r == self.in_use_has(ScriptTemplate::P2tr),
    {
        self.get_in_use_template(ScriptTemplate::P2tr)
    }

    /// The templates in use, or none.
    pub fn get_in_use_selected_descriptors(&self) -> (r: Vec<ScriptTemplate>)
        ensures
            r@ == match self.in_use_spec() {
                Some(u) => u.0,
                None => Seq::empty(),
            },
    {
        match &self.in_use {
            Some(in_use) => {
                let v = &in_use.in_use_selected_descriptors;
                let mut out: Vec<ScriptTemplate> = Vec::new();
                let mut i: usize = 0;
                while i < v.len()
                    invariant
                        i <= v.len(),
                        out@ == v@.subrange(0, i as int),
                    decreases v.len() - i,
                {
                    out.push(v[i]);
                    i = i + 1;
                    proof {
                        assert(out@ =~= v@.subrange(0, i as int));
                    }
                }
                proof {
                    assert(v@.subrange(0, v.len() as int) =~= v@);
                }
                out
            },
            None => Vec::new(),
        }
    }

    /// The templates in use, as the selection a search takes.
    pub fn get_in_use_template_selection(&self) -> (r: TemplateSelection)
        ensures
            forall|t: ScriptTemplate| #[trigger] r.selects(t) == self.in_use_has(t),
    {
        TemplateSelection {
            p2pk: self.get_in_use_p2pk(),
            p2pkh: self.get_in_use_p2pkh(),
            p2wpkh: self.get_in_use_p2wpkh(),
            p2shwpkh: self.get_in_use_p2shwpkh(),
            p2tr: self.get_in_use_p2tr(),
        }
    }

    /// The data directory in use, or an empty text.
    pub fn get_in_use_data_dir(&self) -> (r: String)
        ensures
            r@ == match self.in_use_spec() {
                Some(u) => u.1,
                None => Seq::empty(),
            },
    {
        match &self.in_use {
            Some(in_use) => in_use.in_use_data_dir.clone(),
            None => String::new(),
        }
    }

    pub fn is_gui_selected_descriptors_sane(&self) -> (r: bool)
        ensures
            r == (self.gui_spec().gui_p2pk || self.gui_spec().gui_p2pkh || self.gui_spec().gui_p2wpkh
                || self.gui_spec().gui_p2shwpkh || self.gui_spec().gui_p2tr),
    {
        self.get_gui_p2pk() || self.get_gui_p2pkh() || self.get_gui_p2wpkh() || self.get_gui_p2shwpkh()
            || self.get_gui_p2tr()
    }

    pub fn is_gui_data_dir_sane(&self) -> (r: bool)
        ensures
            r == self.gui_spec().gui_data_dir.sanity_spec(),
    {
        self.gui_input.gui_data_dir.is_sane()
    }

    pub fn is_gui_input_sane(&self) -> (r: bool)
        ensures
            r == self.gui_sane_spec(),
    {
        self.is_gui_data_dir_sane() && self.is_gui_selected_descriptors_sane()
    }

    pub fn is_data_dir_fixed(&self) -> (r: bool)
        ensures
            r == (self.in_use_spec() matches Some(u) && self.gui_spec().gui_data_dir.value_spec() == u.1),
    {
        self.in_use.is_some() && self.get_gui_data_dir() == self.get_in_use_data_dir()
    }

    /// Whether settings are in use and every template is ticked exactly
    /// when it is in use.
    pub fn is_selected_descriptors_fixed(&self) -> (r: bool)
        ensures
            r == (self.in_use_spec() is Some
                && self.gui_spec().gui_p2pk == self.in_use_has(ScriptTemplate::P2pk)
                && self.gui_spec().gui_p2pkh == self.in_use_has(ScriptTemplate::P2pkh)
                && self.gui_spec().gui_p2wpkh == self.in_use_has(ScriptTemplate::P2wpkh)
                && self.gui_spec().gui_p2shwpkh == self.in_use_has(ScriptTemplate::P2shwpkh)
                && self.gui_spec().gui_p2tr == self.in_use_has(ScriptTemplate::P2tr)),
    {
        self.in_use.is_some() && self.get_gui_p2pk() == self.get_in_use_p2pk() && self.get_gui_p2pkh()
            == self.get_in_use_p2pkh() && self.get_gui_p2wpkh() == self.get_in_use_p2wpkh()
            && self.get_gui_p2shwpkh() == self.get_in_use_p2shwpkh() && self.get_gui_p2tr()
            == self.get_in_use_p2tr()
    }

    pub fn is_input_fixed(&self) -> (r: bool)
        ensures
            r == ((self.in_use_spec() matches Some(u) && self.gui_spec().gui_data_dir.value_spec() == u.1)
                && self.in_use_spec() is Some
                && self.gui_spec().gui_p2pk == self.in_use_has(ScriptTemplate::P2pk)
                && self.gui_spec().gui_p2pkh == self.in_use_has(ScriptTemplate::P2pkh)
                && self.gui_spec().gui_p2wpkh == self.in_use_has(ScriptTemplate::P2wpkh)
                && self.gui_spec().gui_p2shwpkh == self.in_use_has(ScriptTemplate::P2shwpkh)
                && self.gui_spec().gui_p2tr == self.in_use_has(ScriptTemplate::P2tr)),
    {
        self.is_data_dir_fixed() && self.is_selected_descriptors_fixed()
    }
}

impl Default for RetrieverSpecificInput {
    fn default() -> (r: Self)
        ensures
            r.in_use_spec() is None,
            r.gui_spec().gui_p2pk && r.gui_spec().gui_p2pkh && r.gui_spec().gui_p2wpkh
                && r.gui_spec().gui_p2shwpkh && r.gui_spec().gui_p2tr,
            !r.gui_spec().gui_data_dir.sanity_spec(),
    {
        Self::new()
    }
}

} // verus!
