//! The settings of the exploration, as typed and as in use: the mnemonic
//! and passphrase, the base paths, the exploration path and its depth.
use vstd::prelude::*;

use crate::gui_input::{GuiError, GuiInput};
use crate::paths::{
    check_mnemonic, exploration_steps, exploration_text_is_safe, is_exploration_text_safe,
    mnemonic_is_valid, parse_derivation_path, parsed_derivation_path, parsed_exploration_steps,
};
use crate::text::{
    decimal_string, join_on, lemma_trim_keeps_bare_text, join_with, parse_u32, parsed_u32, split_at_char, split_on,
    trim_to_string, trimmed, u32_to_decimal,
};

verus! {

/// The network that keys are made for.
#[derive(Debug, Clone, Copy, PartialEq, Eq, Structural)]
pub enum Network {
    Bitcoin,
    Testnet,
    Signet,
    Regtest,
}

/// Relies on the constant `DEFAULT_EXPLORATION_PATH` of
/// `bitceptron_retriever::data::defaults`: "*".
#[verifier::external_body]
fn default_exploration_path() -> (r: String)
    ensures
        r@ == seq!['*'],
{
    bitceptron_retriever::data::defaults::DEFAULT_EXPLORATION_PATH.to_string()
}

/// Relies on the constant `DEFAULT_EXPLORATION_DEPTH` of
/// `bitceptron_retriever::data::defaults`: 100.
#[verifier::external_body]
fn default_exploration_depth() -> (r: u32)
    ensures
        r == 100,
{
    bitceptron_retriever::data::defaults::DEFAULT_EXPLORATION_DEPTH
}

/// Every `;`-separated piece, trimmed, is a derivation path.
pub open spec fn base_paths_text_sane(value: Seq<char>) -> bool {
    let pieces = split_at_char(value, ';');
    forall|i: int| 0 <= i < pieces.len() ==> (#[trigger] parsed_derivation_path(trimmed(pieces[i]))) is Some
}

/// The base paths as typed: `;`-separated derivation paths.
#[derive(Debug)]
pub struct BaseDerivationPathsGuiData {
    base_derivation_paths: String,
    sanity: bool,
}

impl BaseDerivationPathsGuiData {
    pub fn new(value: String) -> (r: Self)
        ensures
            r.value_spec() == value@,
            r.sanity_spec() == base_paths_text_sane(value@),
    {
        let pieces = split_on(value.as_str(), ';');
        let ghost spec_pieces = split_at_char(value@, ';');
        let mut sanity = true;
        let mut i: usize = 0;
        while i < pieces.len()
            invariant
                i <= pieces.len(),
                pieces@.map_values(|p: String| p@) == spec_pieces,
                spec_pieces == split_at_char(value@, ';'),
                sanity == forall|k: int| 0 <= k < i ==> (#[trigger] parsed_derivation_path(trimmed(spec_pieces[k]))) is Some,
            decreases pieces.len() - i,
        {
            let piece = trim_to_string(pieces[i].as_str());
            proof {
                assert(spec_pieces[i as int] == pieces@[i as int]@);
            }
            let ok = parse_derivation_path(piece.as_str()).is_some();
            proof {
                if sanity && ok {
                    assert forall|k: int| 0 <= k < i + 1 implies (#[trigger] parsed_derivation_path(trimmed(spec_pieces[k]))) is Some by {
                    }
                }
                if !ok {
                    assert(parsed_derivation_path(trimmed(spec_pieces[i as int])) is None);
                }
            }
            sanity = sanity && ok;
            i = i + 1;
        }
        BaseDerivationPathsGuiData { base_derivation_paths: value, sanity }
    }
}

impl GuiInput for BaseDerivationPathsGuiData {
    closed spec fn value_spec(&self) -> Seq<char> {
        self.base_derivation_paths@
    }

    closed spec fn sanity_spec(&self) -> bool {
        self.sanity
    }

    fn is_sane(&self) -> (r: bool) {
        self.sanity
    }

    fn get_value(&self) -> (r: String) {
        self.base_derivation_paths.clone()
    }
}

/// An exploration path that the exploration-path reader accepts.
pub open spec fn exploration_path_text_sane(value: Seq<char>) -> bool {
    exploration_text_is_safe(value) && parsed_exploration_steps(value, 1) is Some
}

/// The exploration path as typed, kept trimmed.
#[derive(Debug)]
pub struct ExplorationPathGuiData {
    exploration_path: String,
    sanity: bool,
}

impl ExplorationPathGuiData {
    pub fn new(value: String) -> (r: Self)
        ensures
            r.value_spec() == trimmed(value@),
            r.sanity_spec() == exploration_path_text_sane(trimmed(value@)),
    {
        let exploration_path = trim_to_string(value.as_str());
        let sanity = is_exploration_text_safe(exploration_path.as_str())
            && exploration_steps(exploration_path.as_str(), 1).is_some();
        ExplorationPathGuiData { exploration_path, sanity }
    }
}

impl GuiInput for ExplorationPathGuiData {
    closed spec fn value_spec(&self) -> Seq<char> {
        self.exploration_path@
    }

    closed spec fn sanity_spec(&self) -> bool {
        self.sanity
    }

    fn is_sane(&self) -> (r: bool) {
        self.sanity
    }

    fn get_value(&self) -> (r: String) {
        self.exploration_path.clone()
    }
}

/// A depth of at least one.
pub open spec fn depth_text_sane(value: Seq<char>) -> bool {
    parsed_u32(value) matches Some(d) && d >= 1
}

/// The exploration depth as typed, kept trimmed.
#[derive(Debug)]
pub struct ExplorationDepthGuiData {
    exploration_depth: String,
    sanity: bool,
}

impl ExplorationDepthGuiData {
    pub fn new(value: String) -> (r: Self)
        ensures
            r.wf(),
            r.value_spec() == trimmed(value@),
            r.sanity_spec() == depth_text_sane(trimmed(value@)),
    {
        let exploration_depth = trim_to_string(value.as_str());
        let sanity = match parse_u32(exploration_depth.as_str()) {
            Some(d) => d >= 1,
            None => false,
        };
        ExplorationDepthGuiData { exploration_depth, sanity }
    }

    /// An acceptable depth reads as a number.
    pub closed spec fn wf(&self) -> bool {
        self.sanity ==> depth_text_sane(self.exploration_depth@)
    }
}

impl GuiInput for ExplorationDepthGuiData {
    closed spec fn value_spec(&self) -> Seq<char> {
        self.exploration_depth@
    }

    closed spec fn sanity_spec(&self) -> bool {
        self.sanity
    }

    fn is_sane(&self) -> (r: bool) {
        self.sanity
    }

    fn get_value(&self) -> (r: String) {
        self.exploration_depth.clone()
    }
}

/// The network as picked.
#[derive(Debug)]
pub struct NetworkGuiData {
    pub network: Network,
}

impl NetworkGuiData {
    pub fn new(value: Network) -> (r: Self)
        ensures
            r.network == value,
    {
        NetworkGuiData { network: value }
    }

    pub fn get_value(&self) -> (r: Network)
        ensures
            r == self.network,
    {
        self.network
    }
}

/// The mnemonic as typed, kept trimmed.
#[derive(Debug)]
pub struct MnemonicGuiData {
    mnemonic: String,
    sanity: bool,
}

impl MnemonicGuiData {
    pub closed spec fn value_spec(&self) -> Seq<char> {
        self.mnemonic@
    }

    pub closed spec fn sanity_spec(&self) -> bool {
        self.sanity
    }

    pub fn new(mnemonic: String) -> (r: Self)
        ensures
            r.value_spec() == trimmed(mnemonic@),
            r.sanity_spec() == mnemonic_is_valid(trimmed(mnemonic@)),
    {
        let mnemonic = trim_to_string(mnemonic.as_str());
        let sanity = check_mnemonic(mnemonic.as_str());
        MnemonicGuiData { mnemonic, sanity }
    }

    pub fn is_sane(&self) -> (r: bool)
        ensures
            r == self.sanity_spec(),
    {
        self.sanity
    }

    pub fn get_value(&self) -> (r: String)
        ensures
            r@ == self.value_spec(),
    {
        self.mnemonic.clone()
    }
}

/// The passphrase as typed: any text is acceptable.
#[derive(Debug)]
pub struct PassphraseGuiData {
    passphrase: String,
    sanity: bool,
}

impl PassphraseGuiData {
    pub fn new(value: String) -> (r: Self)
        ensures
            r.value_spec() == value@,
            r.sanity_spec(),
    {
        PassphraseGuiData { passphrase: value, sanity: true }
    }
}

impl GuiInput for PassphraseGuiData {
    closed spec fn value_spec(&self) -> Seq<char> {
        self.passphrase@
    }

    closed spec fn sanity_spec(&self) -> bool {
        self.sanity
    }

    fn is_sane(&self) -> (r: bool) {
        self.sanity
    }

    fn get_value(&self) -> (r: String) {
        self.passphrase.clone()
    }
}

/// The exploration settings as typed.
#[derive(Debug)]
pub struct ExplorerSettingFromGui {
    pub gui_base_derivation_paths: BaseDerivationPathsGuiData,
    pub gui_base_derivation_paths_from_presets: bool,
    pub gui_exploration_path: ExplorationPathGuiData,
    pub gui_sweep: bool,
    pub gui_exploration_depth: ExplorationDepthGuiData,
    pub gui_network: NetworkGuiData,
    pub gui_mnemonic: MnemonicGuiData,
    pub gui_passphrase: PassphraseGuiData,
}

impl ExplorerSettingFromGui {
    /// Base path `m`, the default exploration path and depth, mainnet, and
    /// no mnemonic or passphrase.
    pub fn new() -> (r: Self)
        ensures
            r.gui_exploration_depth.wf(),
            r.gui_base_derivation_paths.value_spec() == seq!['m'],
            !r.gui_base_derivation_paths_from_presets,
            r.gui_exploration_path.value_spec() == seq!['*'],
            !r.gui_sweep,
            r.gui_exploration_depth.value_spec() == seq!['1', '0', '0'],
            r.gui_network.network == Network::Bitcoin,
            r.gui_mnemonic.value_spec() == Seq::<char>::empty(),
            r.gui_passphrase.value_spec() == Seq::<char>::empty(),
    {
        let m = "m".to_owned();
        proof {
            reveal_strlit("m");
            lemma_trim_keeps_bare_text(seq!['*']);
            lemma_trim_keeps_bare_text(Seq::<char>::empty());
            reveal_with_fuel(decimal_string, 4);
            assert(decimal_string(100) =~= seq!['1', '0', '0']);
            lemma_trim_keeps_bare_text(seq!['1', '0', '0']);
        }
        ExplorerSettingFromGui {
            gui_base_derivation_paths: BaseDerivationPathsGuiData::new(m),
            gui_base_derivation_paths_from_presets: false,
            gui_exploration_path: ExplorationPathGuiData::new(default_exploration_path()),
            gui_sweep: false,
            gui_exploration_depth: ExplorationDepthGuiData::new(u32_to_decimal(default_exploration_depth())),
            gui_network: NetworkGuiData::new(Network::Bitcoin),
            gui_mnemonic: MnemonicGuiData::new(String::new()),
            gui_passphrase: PassphraseGuiData::new(String::new()),
        }
    }
}

/// The exploration settings in use.
#[derive(Debug)]
pub struct ExplorerSettingInUse {
    pub in_use_base_derivation_paths: Vec<String>,
    pub in_use_base_derivation_paths_from_presets: bool,
    pub in_use_exploration_path: String,
    pub in_use_sweep: bool,
    pub in_use_exploration_depth: u32,
    pub in_use_network: Network,
    pub in_use_mnemonic: String,
    pub in_use_passphrase: String,
}

/// The exploration settings handed to the search.
#[derive(Debug)]
pub struct ExplorerSetting {
    pub mnemonic: String,
    pub passphrase: String,
    pub base_derivation_paths: Vec<String>,
    pub exploration_path: String,
    pub exploration_depth: u32,
    pub network: Network,
    pub sweep: bool,
}

/// The texts of a vector of strings.
pub open spec fn texts_of(v: Seq<String>) -> Seq<Seq<char>> {
    v.map_values(|s: String| s@)
}

fn clone_strings(v: &Vec<String>) -> (r: Vec<String>)
    ensures
        texts_of(r@) == texts_of(v@),
{
    let mut out: Vec<String> = Vec::new();
    let mut i: usize = 0;
    while i < v.len()
        invariant
            i <= v.len(),
            out.len() == i,
            forall|k: int| 0 <= k < i ==> (#[trigger] out@[k])@ == v@[k]@,
        decreases v.len() - i,
    {
        let c = v[i].clone();
        out.push(c);
        i = i + 1;
    }
    proof {
        assert(texts_of(out@) =~= texts_of(v@));
    }
    out
}

/// The exploration settings: as typed, and, once acceptable and fixed, as
/// in use.
#[derive(Debug)]
pub struct ExplorerInput {
    gui_input: ExplorerSettingFromGui,
    in_use: Option<ExplorerSettingInUse>,
}

impl ExplorerInput {
    pub closed spec fn wf(&self) -> bool {
        self.gui_input.gui_exploration_depth.wf()
    }

    pub closed spec fn gui_spec(&self) -> &ExplorerSettingFromGui {
        &self.gui_input
    }

    pub closed spec fn in_use_spec(&self) -> Option<&ExplorerSettingInUse> {
        match self.in_use {
            Some(u) => Some(&u),
            None => None,
        }
    }

    /// All typed settings are acceptable.
    pub open spec fn gui_sane_spec(&self) -> bool {
        &&& self.gui_spec().gui_base_derivation_paths.sanity_spec()
        &&& self.gui_spec().gui_exploration_depth.sanity_spec()
        &&& self.gui_spec().gui_exploration_path.sanity_spec()
        &&& self.gui_spec().gui_passphrase.sanity_spec()
        &&& self.gui_spec().gui_mnemonic.sanity_spec()
    }

    pub open spec fn in_use_base_paths_text(&self) -> Seq<Seq<char>> {
        match self.in_use_spec() {
            Some(u) => texts_of(u.in_use_base_derivation_paths@),
            None => seq![Seq::empty()],
        }
    }

    pub open spec fn in_use_presets(&self) -> bool {
        match self.in_use_spec() {
            Some(u) => u.in_use_base_derivation_paths_from_presets,
            None => false,
        }
    }

    pub open spec fn in_use_exploration_path_text(&self) -> Seq<char> {
        match self.in_use_spec() {
            Some(u) => u.in_use_exploration_path@,
            None => Seq::empty(),
        }
    }

    pub open spec fn in_use_sweep_spec(&self) -> bool {
        match self.in_use_spec() {
            Some(u) => u.in_use_sweep,
            None => false,
        }
    }

    pub open spec fn in_use_depth(&self) -> u32 {
        match self.in_use_spec() {
            Some(u) => u.in_use_exploration_depth,
            None => 0,
        }
    }

    pub open spec fn in_use_network_spec(&self) -> Network {
        match self.in_use_spec() {
            Some(u) => u.in_use_network,
            None => Network::Bitcoin,
        }
    }

    pub open spec fn in_use_mnemonic_text(&self) -> Seq<char> {
        match self.in_use_spec() {
            Some(u) => u.in_use_mnemonic@,
            None => Seq::empty(),
        }
    }

    pub open spec fn in_use_passphrase_text(&self) -> Seq<char> {
        match self.in_use_spec() {
            Some(u) => u.in_use_passphrase@,
            None => Seq::empty(),
        }
    }

    /// Each setting typed equals the one in use, and settings are in use.
    pub open spec fn input_fixed_spec(&self) -> bool {
        &&& self.in_use_spec() is Some
        &&& self.gui_spec().gui_base_derivation_paths.value_spec() == join_with(self.in_use_base_paths_text(), ';')
        &&& self.gui_spec().gui_exploration_depth.value_spec() == decimal_string(self.in_use_depth() as nat)
        &&& self.gui_spec().gui_exploration_path.value_spec() == self.in_use_exploration_path_text()
        &&& self.gui_spec().gui_passphrase.value_spec() == self.in_use_passphrase_text()
        &&& self.gui_spec().gui_mnemonic.value_spec() == self.in_use_mnemonic_text()
        &&& self.gui_spec().gui_network.network == self.in_use_network_spec()
        &&& self.gui_spec().gui_sweep == self.in_use_sweep_spec()
        &&& self.gui_spec().gui_base_derivation_paths_from_presets == self.in_use_presets()
    }

    /// The defaults as typed, and nothing in use.
    pub fn new() -> (r: Self)
        ensures
            r.wf(),
            r.in_use_spec() is None,
            r.gui_spec().gui_base_derivation_paths.value_spec() == seq!['m'],
            !r.gui_spec().gui_base_derivation_paths_from_presets,
            r.gui_spec().gui_exploration_path.value_spec() == seq!['*'],
            !r.gui_spec().gui_sweep,
            r.gui_spec().gui_exploration_depth.value_spec() == seq!['1', '0', '0'],
            r.gui_spec().gui_network.network == Network::Bitcoin,
            r.gui_spec().gui_mnemonic.value_spec() == Seq::<char>::empty(),
            r.gui_spec().gui_passphrase.value_spec() == Seq::<char>::empty(),
    {
        ExplorerInput { gui_input: ExplorerSettingFromGui::new(), in_use: None }
    }

    /// Puts the typed settings in use when all are acceptable: the base
    /// paths split at `;`, and the depth read as a number. Else nothing
    /// changes.
    pub fn gui_to_in_use(&mut self) -> (r: Result<(), GuiError>)
        requires
            old(self).wf(),
        ensures
            final(self).wf(),
            final(self).gui_spec() == old(self).gui_spec(),
            old(self).gui_sane_spec() ==> r is Ok && (final(self).in_use_spec() matches Some(u) && {
                let g = old(self).gui_spec();
                &&& texts_of(u.in_use_base_derivation_paths@) == split_at_char(g.gui_base_derivation_paths.value_spec(), ';')
                &&& u.in_use_base_derivation_paths_from_presets == g.gui_base_derivation_paths_from_presets
                &&& u.in_use_exploration_path@ == g.gui_exploration_path.value_spec()
                &&& u.in_use_sweep == g.gui_sweep
                &&& Some(u.in_use_exploration_depth) == parsed_u32(g.gui_exploration_depth.value_spec())
                &&& u.in_use_network == g.gui_network.network
                &&& u.in_use_mnemonic@ == g.gui_mnemonic.value_spec()
                &&& u.in_use_passphrase@ == g.gui_passphrase.value_spec()
            }),
            !old(self).gui_sane_spec() ==> r == Err::<(), GuiError>(GuiError::GuiInputIsInsane)
                && final(self).in_use_spec() == old(self).in_use_spec(),
    {
        if !self.is_gui_input_sane() {
            return Err(GuiError::GuiInputIsInsane);
        }
        let depth = match parse_u32(self.get_gui_exploration_depth().as_str()) {
            Some(d) => d,
            None => {
                return Err(GuiError::GuiInputIsInsane);
            },
        };
        let in_use = ExplorerSettingInUse {
            in_use_base_derivation_paths: split_on(self.get_gui_base_derivation_paths().as_str(), ';'),
            in_use_base_derivation_paths_from_presets: self.get_gui_base_derivation_paths_from_presets(),
            in_use_exploration_path: self.get_gui_exploration_path(),
            in_use_sweep: self.get_gui_sweep(),
            in_use_exploration_depth: depth,
            in_use_network: self.get_gui_network(),
            in_use_mnemonic: self.get_gui_mnemonic(),
            in_use_passphrase: self.get_gui_passphrase(),
        };
        proof {
            assert(texts_of(in_use.in_use_base_derivation_paths@) == in_use.in_use_base_derivation_paths@.map_values(|p: String| p@));
        }
        self.in_use = Some(in_use);
        Ok(())
    }

    /// The settings in use, handed to a search; only once they are fixed.
    pub fn to_explorer_setting(&self) -> (r: ExplorerSetting)
        requires
            self.input_fixed_spec(),
        ensures
            r.mnemonic@ == self.in_use_mnemonic_text(),
            r.passphrase@ == self.in_use_passphrase_text(),
            texts_of(r.base_derivation_paths@) == self.in_use_base_paths_text(),
            r.exploration_path@ == self.in_use_exploration_path_text(),
            r.exploration_depth == self.in_use_depth(),
            r.network == self.in_use_network_spec(),
            r.sweep == self.in_use_sweep_spec(),
    {
        ExplorerSetting {
            mnemonic: self.get_in_use_mnemonic(),
            passphrase: self.get_in_use_passphrase(),
            base_derivation_paths: self.get_in_use_base_derivation_paths(),
            exploration_path: self.get_in_use_exploration_path(),
            exploration_depth: self.get_in_use_exploration_depth(),
            network: self.get_in_use_network(),
            sweep: self.get_in_use_sweep(),
        }
    }

    pub fn set_base_derivation_paths_from_gui_input(&mut self, base_derivation_paths: String)
        requires
            old(self).wf(),
        ensures
            final(self).wf(),
            final(self).in_use_spec() == old(self).in_use_spec(),
            final(self).gui_spec().gui_base_derivation_paths.value_spec() == base_derivation_paths@,
            final(self).gui_spec().gui_base_derivation_paths.sanity_spec() == base_paths_text_sane(base_derivation_paths@),
    {
        self.gui_input.gui_base_derivation_paths = BaseDerivationPathsGuiData::new(base_derivation_paths);
    }

    pub fn set_base_derivation_paths_from_presets_from_gui_input(&mut self, base_derivation_paths_from_presets: bool)
        requires
            old(self).wf(),
        ensures
            final(self).wf(),
            final(self).in_use_spec() == old(self).in_use_spec(),
            final(self).gui_spec().gui_base_derivation_paths_from_presets == base_derivation_paths_from_presets,
    {
        self.gui_input.gui_base_derivation_paths_from_presets = base_derivation_paths_from_presets;
    }

    pub fn set_exploration_path_from_gui_input(&mut self, exploration_path: String)
        requires
            old(self).wf(),
        ensures
            final(self).wf(),
            final(self).in_use_spec() == old(self).in_use_spec(),
            final(self).gui_spec().gui_exploration_path.value_spec() == trimmed(exploration_path@),
            final(self).gui_spec().gui_exploration_path.sanity_spec() == exploration_path_text_sane(trimmed(exploration_path@)),
    {
        self.gui_input.gui_exploration_path = ExplorationPathGuiData::new(exploration_path);
    }

    pub fn set_sweep_from_gui_input(&mut self, sweep: bool)
        requires
            old(self).wf(),
        ensures
            final(self).wf(),
            final(self).in_use_spec() == old(self).in_use_spec(),
            final(self).gui_spec().gui_sweep == sweep,
    {
        self.gui_input.gui_sweep = sweep;
    }

    pub fn set_exploration_depth_from_gui_input(&mut self, exploration_depth: String)
        requires
            old(self).wf(),
        ensures
            final(self).wf(),
            final(self).in_use_spec() == old(self).in_use_spec(),
            final(self).gui_spec().gui_exploration_depth.value_spec() == trimmed(exploration_depth@),
            final(self).gui_spec().gui_exploration_depth.sanity_spec() == depth_text_sane(trimmed(exploration_depth@)),
    {
        self.gui_input.gui_exploration_depth = ExplorationDepthGuiData::new(exploration_depth);
    }

    pub fn set_network_from_gui_input(&mut self, network: Network)
        requires
            old(self).wf(),
        ensures
            final(self).wf(),
            final(self).in_use_spec() == old(self).in_use_spec(),
            final(self).gui_spec().gui_network.network == network,
    {
        self.gui_input.gui_network = NetworkGuiData::new(network);
    }

    pub fn set_mnemonic_from_gui_input(&mut self, mnemonic: String)
        requires
            old(self).wf(),
        ensures
            final(self).wf(),
            final(self).in_use_spec() == old(self).in_use_spec(),
            final(self).gui_spec().gui_mnemonic.value_spec() == trimmed(mnemonic@),
            final(self).gui_spec().gui_mnemonic.sanity_spec() == mnemonic_is_valid(trimmed(mnemonic@)),
    {
        self.gui_input.gui_mnemonic = MnemonicGuiData::new(mnemonic);
    }

    pub fn set_passphrase_from_gui_input(&mut self, passphrase: String)
        requires
            old(self).wf(),
        ensures
            final(self).wf(),
            final(self).in_use_spec() == old(self).in_use_spec(),
            final(self).gui_spec().gui_passphrase.value_spec() == passphrase@,
            final(self).gui_spec().gui_passphrase.sanity_spec(),
    {
        self.gui_input.gui_passphrase = PassphraseGuiData::new(passphrase);
    }

    pub fn get_gui_base_derivation_paths(&self) -> (r: String)
        ensures
            r@ == self.gui_spec().gui_base_derivation_paths.value_spec(),
    {
        self.gui_input.gui_base_derivation_paths.get_value()
    }

    pub fn get_gui_base_derivation_paths_from_presets(&self) -> (r: bool)
        ensures
            r == self.gui_spec().gui_base_derivation_paths_from_presets,
    {
        self.gui_input.gui_base_derivation_paths_from_presets
    }

    pub fn get_gui_exploration_path(&self) -> (r: String)
        ensures
            r@ == self.gui_spec().gui_exploration_path.value_spec(),
    {
        self.gui_input.gui_exploration_path.get_value()
    }

    pub fn get_gui_sweep(&self) -> (r: bool)
        ensures
            r == self.gui_spec().gui_sweep,
    {
        self.gui_input.gui_sweep
    }

    pub fn get_gui_exploration_depth(&self) -> (r: String)
        ensures
            r@ == self.gui_spec().gui_exploration_depth.value_spec(),
    {
        self.gui_input.gui_exploration_depth.get_value()
    }

    pub fn get_gui_network(&self) -> (r: Network)
        ensures
            r == self.gui_spec().gui_network.network,
    {
        self.gui_input.gui_network.get_value()
    }

    pub fn get_gui_mnemonic(&self) -> (r: String)
        ensures
            r@ == self.gui_spec().gui_mnemonic.value_spec(),
    {
        self.gui_input.gui_mnemonic.get_value()
    }

    pub fn get_gui_passphrase(&self) -> (r: String)
        ensures
            r@ == self.gui_spec().gui_passphrase.value_spec(),
    {
        self.gui_input.gui_passphrase.get_value()
    }

    /// The base paths in use, or one empty text.
    pub fn get_in_use_base_derivation_paths(&self) -> (r: Vec<String>)
        ensures
            texts_of(r@) == self.in_use_base_paths_text(),
    {
        match &self.in_use {
            Some(in_use) => clone_strings(&in_use.in_use_base_derivation_paths),
            None => {
                let r = vec![String::new()];
                proof {
                    assert(texts_of(r@) =~= seq![Seq::<char>::empty()]);
                }
                r
            },
        }
    }

    pub fn get_in_use_base_derivation_paths_from_presets(&self) -> (r: bool)
        ensures
            r == self.in_use_presets(),
    {
        match &self.in_use {
            Some(in_use) => in_use.in_use_base_derivation_paths_from_presets,
            None => false,
        }
    }

    pub fn get_in_use_exploration_path(&self) -> (r: String)
        ensures
            r@ == self.in_use_exploration_path_text(),
    {
        match &self.in_use {
            Some(in_use) => in_use.in_use_exploration_path.clone(),
            None => String::new(),
        }
    }

    pub fn get_in_use_sweep(&self) -> (r: bool)
        ensures
            r == self.in_use_sweep_spec(),
    {
        match &self.in_use {
            Some(in_use) => in_use.in_use_sweep,
            None => false,
        }
    }

    pub fn get_in_use_exploration_depth(&self) -> (r: u32)
        ensures
            r == self.in_use_depth(),
    {
        match &self.in_use {
            Some(in_use) => in_use.in_use_exploration_depth,
            None => 0,
        }
    }

    pub fn get_in_use_network(&self) -> (r: Network)
        ensures
            r == self.in_use_network_spec(),
    {
        match &self.in_use {
            Some(in_use) => in_use.in_use_network,
            None => Network::Bitcoin,
        }
    }

    pub fn get_in_use_mnemonic(&self) -> (r: String)
        ensures
            r@ == self.in_use_mnemonic_text(),
    {
        match &self.in_use {
            Some(in_use) => in_use.in_use_mnemonic.clone(),
            None => String::new(),
        }
    }

    pub fn get_in_use_passphrase(&self) -> (r: String)
        ensures
            r@ == self.in_use_passphrase_text(),
    {
        match &self.in_use {
            Some(in_use) => in_use.in_use_passphrase.clone(),
            None => String::new(),
        }
    }

    pub fn is_gui_base_derivation_paths_sane(&self) -> (r: bool)
        ensures
            r == self.gui_spec().gui_base_derivation_paths.sanity_spec(),
    {
        self.gui_input.gui_base_derivation_paths.is_sane()
    }

    pub fn is_gui_exploration_path_sane(&self) -> (r: bool)
        ensures
            r == self.gui_spec().gui_exploration_path.sanity_spec(),
    {
        self.gui_input.gui_exploration_path.is_sane()
    }

    pub fn is_gui_exploration_depth_sane(&self) -> (r: bool)
        ensures
            r == self.gui_spec().gui_exploration_depth.sanity_spec(),
    {
        self.gui_input.gui_exploration_depth.is_sane()
    }

    pub fn is_gui_mnemonic_sane(&self) -> (r: bool)
        ensures
            r == self.gui_spec().gui_mnemonic.sanity_spec(),
    {
        self.gui_input.gui_mnemonic.is_sane()
    }

    pub fn is_gui_passphrase_sane(&self) -> (r: bool)
        ensures
            r == self.gui_spec().gui_passphrase.sanity_spec(),
    {
        self.gui_input.gui_passphrase.is_sane()
    }

    pub fn is_gui_input_sane(&self) -> (r: bool)
        ensures
            r == self.gui_sane_spec(),
    {
        self.is_gui_base_derivation_paths_sane() && self.is_gui_exploration_depth_sane()
            && self.is_gui_exploration_path_sane() && self.is_gui_passphrase_sane()
            && self.is_gui_mnemonic_sane()
    }

    pub fn is_base_derivation_paths_fixed(&self) -> (r: bool)
        ensures
            r == (self.in_use_spec() is Some && self.gui_spec().gui_base_derivation_paths.value_spec()
                == join_with(self.in_use_base_paths_text(), ';')),
    {
        self.in_use.is_some() && self.get_gui_base_derivation_paths() == join_on(
            &self.get_in_use_base_derivation_paths(),
            ';',
        )
    }

    pub fn is_exploration_path_fixed(&self) -> (r: bool)
        ensures
            r == (self.in_use_spec() is Some && self.gui_spec().gui_exploration_path.value_spec()
                == self.in_use_exploration_path_text()),
    {
        self.in_use.is_some() && self.get_gui_exploration_path() == self.get_in_use_exploration_path()
    }

    pub fn is_exploration_depth_fixed(&self) -> (r: bool)
        ensures
            r == (self.in_use_spec() is Some && self.gui_spec().gui_exploration_depth.value_spec()
                == decimal_string(self.in_use_depth() as nat)),
    {
        self.in_use.is_some() && self.get_gui_exploration_depth() == u32_to_decimal(
            self.get_in_use_exploration_depth(),
        )
    }

    pub fn is_mnemonic_fixed(&self) -> (r: bool)
        ensures
            r == (self.in_use_spec() is Some && self.gui_spec().gui_mnemonic.value_spec()
                == self.in_use_mnemonic_text()),
    {
        self.in_use.is_some() && self.get_gui_mnemonic() == self.get_in_use_mnemonic()
    }

    pub fn is_passphrase_fixed(&self) -> (r: bool)
        ensures
            r == (self.in_use_spec() is Some && self.gui_spec().gui_passphrase.value_spec()
                == self.in_use_passphrase_text()),
    {
        self.in_use.is_some() && self.get_gui_passphrase() == self.get_in_use_passphrase()
    }

    pub fn is_sweep_fixed(&self) -> (r: bool)
        ensures
            r == (self.in_use_spec() is Some && self.gui_spec().gui_sweep == self.in_use_sweep_spec()),
    {
        self.in_use.is_some() && self.get_gui_sweep() == self.get_in_use_sweep()
    }

    pub fn is_base_derivation_paths_from_presets_fixed(&self) -> (r: bool)
        ensures
            r == (self.in_use_spec() is Some && self.gui_spec().gui_base_derivation_paths_from_presets
                == self.in_use_presets()),
    {
        self.in_use.is_some() && self.get_gui_base_derivation_paths_from_presets()
            == self.get_in_use_base_derivation_paths_from_presets()
    }

    pub fn is_network_fixed(&self) -> (r: bool)
        ensures
            r == (self.in_use_spec() is Some && self.gui_spec().gui_network.network
                == self.in_use_network_spec()),
    {
        self.in_use.is_some() && self.get_gui_network() == self.get_in_use_network()
    }

    pub fn is_input_fixed(&self) -> (r: bool)
        ensures
            r == self.input_fixed_spec(),
    {
        self.is_base_derivation_paths_fixed() && self.is_exploration_depth_fixed()
            && self.is_exploration_path_fixed() && self.is_passphrase_fixed()
            && self.is_mnemonic_fixed() && self.is_network_fixed() && self.is_sweep_fixed()
            && self.is_base_derivation_paths_from_presets_fixed()
    }
}

impl Default for ExplorerInput {
    fn default() -> (r: Self)
        ensures
            r.wf(),
            r.in_use_spec() is None,
    {
        Self::new()
    }
}

} // verus!
