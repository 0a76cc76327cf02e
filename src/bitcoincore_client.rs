//! The settings of the connection to a bitcoin node, as typed and as in use.
use vstd::prelude::*;

use crate::gui_input::{GuiError, GuiInput};
use crate::text::{
    decimal_string, digits_value, lemma_trim_is_idempotent, lemma_trim_keeps_bare_text, parse_u64, parsed_u64, regex_is_match, regex_match, trim_to_string, trimmed,
    u64_to_decimal,
};

verus! {

/// The pattern of an IPv4-like address.
pub const URL_PATTERN: &'static str = r"^\d+.\d+.\d+.\d+$";

/// The pattern of a run of digits.
pub const DIGITS_PATTERN: &'static str = r"^\d+$";

/// Relies on the constant `DEFAULT_BITCOINCORE_RPC_URL` of
/// `bitceptron_retriever::data::defaults`: "127.0.0.1".
#[verifier::external_body]
fn default_rpc_url() -> (r: String)
    ensures
        r@ == "127.0.0.1"@,
{
    bitceptron_retriever::data::defaults::DEFAULT_BITCOINCORE_RPC_URL.to_owned()
}

/// Relies on the constant `DEFAULT_BITCOINCORE_RPC_PORT` of
/// `bitceptron_retriever::data::defaults`: "8332".
#[verifier::external_body]
fn default_rpc_port() -> (r: String)
    ensures
        r@ == "8332"@,
{
    bitceptron_retriever::data::defaults::DEFAULT_BITCOINCORE_RPC_PORT.to_owned()
}

/// Relies on the constant `DEFAULT_BITCOINCORE_RPC_TIMEOUT_SECONDS` of
/// `bitceptron_retriever::data::defaults`: 6800.
#[verifier::external_body]
fn default_rpc_timeout_seconds() -> (r: u64)
    ensures
        r == 6800,
{
    bitceptron_retriever::data::defaults::DEFAULT_BITCOINCORE_RPC_TIMEOUT_SECONDS
}

/// Whether a pattern matches; a pattern that does not compile matches
/// nothing.
pub open spec fn pattern_matches(pattern: &str, text: Seq<char>) -> bool {
    regex_match(pattern@, text) == Some(true)
}

fn matches_pattern(pattern: &str, text: &str) -> (r: bool)
    ensures
        r == pattern_matches(pattern, text@),
{
    match regex_is_match(pattern, text) {
        Some(b) => b,
        None => false,
    }
}

/// The node's address as typed: kept trimmed, acceptable when the text as
/// typed has the shape of an IPv4 address.
#[derive(Debug)]
pub struct UrlGuiData {
    url: String,
    sanity: bool,
}

impl UrlGuiData {
    pub fn new(url: String) -> (r: Self)
        ensures
            r.value_spec() == trimmed(url@),
            r.sanity_spec() == pattern_matches(URL_PATTERN, url@),
    {
        let sanity = matches_pattern(URL_PATTERN, url.as_str());
        UrlGuiData { url: trim_to_string(url.as_str()), sanity }
    }
}

impl GuiInput for UrlGuiData {
    closed spec fn value_spec(&self) -> Seq<char> {
        self.url@
    }

    closed spec fn sanity_spec(&self) -> bool {
        self.sanity
    }

    fn is_sane(&self) -> (r: bool) {
        self.sanity
    }

    fn get_value(&self) -> (r: String) {
        self.url.clone()
    }
}

/// The node's RPC port as typed: acceptable when it is a run of digits.
#[derive(Debug)]
pub struct RpcPortGuiData {
    rpc_port: String,
    sanity: bool,
}

impl RpcPortGuiData {
    pub fn new(rpc_port: String) -> (r: Self)
        ensures
            r.value_spec() == rpc_port@,
            r.sanity_spec() == pattern_matches(DIGITS_PATTERN, rpc_port@),
    {
        let sanity = matches_pattern(DIGITS_PATTERN, rpc_port.as_str());
        RpcPortGuiData { rpc_port, sanity }
    }
}

impl GuiInput for RpcPortGuiData {
    closed spec fn value_spec(&self) -> Seq<char> {
        self.rpc_port@
    }

    closed spec fn sanity_spec(&self) -> bool {
        self.sanity
    }

    fn is_sane(&self) -> (r: bool) {
        self.sanity
    }

    fn get_value(&self) -> (r: String) {
        self.rpc_port.clone()
    }
}

/// The RPC timeout in seconds as typed: acceptable when it is a run of
/// digits that reads as a `u64`.
#[derive(Debug)]
pub struct TimeoutGuiData {
    timeout: String,
    sanity: bool,
}

impl TimeoutGuiData {
    pub fn new(timeout: String) -> (r: Self)
        ensures
            r.wf(),
            r.value_spec() == timeout@,
            r.sanity_spec() == (pattern_matches(DIGITS_PATTERN, timeout@) && parsed_u64(timeout@) is Some),
    {
        let sanity = matches_pattern(DIGITS_PATTERN, timeout.as_str()) && parse_u64(timeout.as_str()).is_some();
        TimeoutGuiData { timeout, sanity }
    }

    /// An acceptable timeout reads as a number.
    pub closed spec fn wf(&self) -> bool {
        self.sanity ==> parsed_u64(self.timeout@) is Some
    }
}

impl GuiInput for TimeoutGuiData {
    closed spec fn value_spec(&self) -> Seq<char> {
        self.timeout@
    }

    closed spec fn sanity_spec(&self) -> bool {
        self.sanity
    }

    fn is_sane(&self) -> (r: bool) {
        self.sanity
    }

    fn get_value(&self) -> (r: String) {
        self.timeout.clone()
    }
}

/// The path of the node's cookie file as typed. Whether it names an
/// existing file called `.cookie` is found out by the caller, who can look
/// at the file system, and handed in.
#[derive(Debug)]
pub struct CookiePathGuiData {
    cookie_path: String,
    sanity: bool,
}

impl CookiePathGuiData {
    pub fn new(cookie_path: String, is_cookie_file: bool) -> (r: Self)
        ensures
            r.value_spec() == cookie_path@,
            r.sanity_spec() == is_cookie_file,
    {
        CookiePathGuiData { cookie_path, sanity: is_cookie_file }
    }
}

impl GuiInput for CookiePathGuiData {
    closed spec fn value_spec(&self) -> Seq<char> {
        self.cookie_path@
    }

    closed spec fn sanity_spec(&self) -> bool {
        self.sanity
    }

    fn is_sane(&self) -> (r: bool) {
        self.sanity
    }

    fn get_value(&self) -> (r: String) {
        self.cookie_path.clone()
    }
}

/// The four settings as typed.
#[derive(Debug)]
pub struct BitcoincoreClientSettingFromGui {
    pub gui_url: UrlGuiData,
    pub gui_rpc_port: RpcPortGuiData,
    pub gui_timeout: TimeoutGuiData,
    pub gui_cookie_path: CookiePathGuiData,
}

impl BitcoincoreClientSettingFromGui {
    /// The node's defaults, and no cookie file.
    pub fn new() -> (r: Self)
        ensures
            r.gui_timeout.wf(),
            r.gui_url.value_spec() == "127.0.0.1"@,
            r.gui_url.sanity_spec() == pattern_matches(URL_PATTERN, "127.0.0.1"@),
            r.gui_rpc_port.value_spec() == "8332"@,
            r.gui_rpc_port.sanity_spec() == pattern_matches(DIGITS_PATTERN, "8332"@),
            r.gui_timeout.value_spec() == seq!['6', '8', '0', '0'],
            r.gui_timeout.sanity_spec() == pattern_matches(DIGITS_PATTERN, seq!['6', '8', '0', '0']),
            r.gui_cookie_path.value_spec() == Seq::<char>::empty(),
            !r.gui_cookie_path.sanity_spec(),
    {
        proof {
            reveal_strlit("127.0.0.1");
            lemma_trim_keeps_bare_text("127.0.0.1"@);
            reveal_with_fuel(decimal_string, 5);
            assert(decimal_string(6800) =~= seq!['6', '8', '0', '0']);
            reveal_with_fuel(digits_value, 5);
            assert(digits_value(seq!['6', '8', '0', '0']) == 6800);
        }
        BitcoincoreClientSettingFromGui {
            gui_url: UrlGuiData::new(default_rpc_url()),
            gui_rpc_port: RpcPortGuiData::new(default_rpc_port()),
            gui_timeout: TimeoutGuiData::new(u64_to_decimal(default_rpc_timeout_seconds())),
            gui_cookie_path: CookiePathGuiData::new(String::new(), false),
        }
    }
}

/// The settings in use: put there from acceptable typed settings.
#[derive(Debug, Clone)]
pub struct BitcoincoreClientSettingInUse {
    pub in_use_url: String,
    pub in_use_rpc_port: String,
    pub in_use_timeout_seconds: u64,
    pub in_use_cookie_path: String,
}

/// The settings of the connection to the node: as typed, and, once they
/// were acceptable and fixed, as in use.
#[derive(Debug)]
pub struct BitcoincoreClientInput {
    gui_input: BitcoincoreClientSettingFromGui,
    in_use: Option<BitcoincoreClientSettingInUse>,
}

/// The settings in use, as texts and a number.
pub struct InUseView {
    pub url: Seq<char>,
    pub rpc_port: Seq<char>,
    pub timeout_seconds: u64,
    pub cookie_path: Seq<char>,
}

impl BitcoincoreClientInput {
    pub closed spec fn wf(&self) -> bool {
        self.gui_input.gui_timeout.wf()
    }

    pub closed spec fn gui_spec(&self) -> &BitcoincoreClientSettingFromGui {
        &self.gui_input
    }

    pub closed spec fn in_use_spec(&self) -> Option<InUseView> {
        match self.in_use {
            Some(u) => Some(
                InUseView {
                    url: u.in_use_url@,
                    rpc_port: u.in_use_rpc_port@,
                    timeout_seconds: u.in_use_timeout_seconds,
                    cookie_path: u.in_use_cookie_path@,
                },
            ),
            None => None,
        }
    }

    /// The sanity of all four typed settings.
    pub open spec fn gui_sane_spec(&self) -> bool {
        &&& self.gui_spec().gui_url.sanity_spec()
        &&& self.gui_spec().gui_rpc_port.sanity_spec()
        &&& self.gui_spec().gui_timeout.sanity_spec()
        &&& self.gui_spec().gui_cookie_path.sanity_spec()
    }

    /// The text shown for the timeout in use: empty when none is in use.
    pub open spec fn in_use_timeout_text(&self) -> Seq<char> {
        match self.in_use_spec() {
            Some(u) => decimal_string(u.timeout_seconds as nat),
            None => Seq::empty(),
        }
    }

    pub open spec fn in_use_url_text(&self) -> Seq<char> {
        match self.in_use_spec() {
            Some(u) => u.url,
            None => Seq::empty(),
        }
    }

    pub open spec fn in_use_rpc_port_text(&self) -> Seq<char> {
        match self.in_use_spec() {
            Some(u) => u.rpc_port,
            None => Seq::empty(),
        }
    }

    pub open spec fn in_use_cookie_path_text(&self) -> Seq<char> {
        match self.in_use_spec() {
            Some(u) => u.cookie_path,
            None => Seq::empty(),
        }
    }

    /// The defaults as typed, and nothing in use.
    pub fn new() -> (r: Self)
        ensures
            r.wf(),
            r.in_use_spec() is None,
            r.gui_spec().gui_url.value_spec() == "127.0.0.1"@,
            r.gui_spec().gui_rpc_port.value_spec() == "8332"@,
            r.gui_spec().gui_timeout.value_spec() == seq!['6', '8', '0', '0'],
            r.gui_spec().gui_cookie_path.value_spec() == Seq::<char>::empty(),
            !r.gui_spec().gui_cookie_path.sanity_spec(),
    {
        BitcoincoreClientInput { gui_input: BitcoincoreClientSettingFromGui::new(), in_use: None }
    }
    /// Puts the typed settings in use when all four are acceptable; else
    /// nothing changes.
    pub fn gui_to_in_use(&mut self) -> (r: Result<(), GuiError>)
        requires
            old(self).wf(),
        ensures
            final(self).wf(),
            final(self).gui_spec() == old(self).gui_spec(),
            old(self).gui_sane_spec() ==> r is Ok && final(self).in_use_spec() == Some(
                InUseView {
                    url: old(self).gui_spec().gui_url.value_spec(),
                    rpc_port: old(self).gui_spec().gui_rpc_port.value_spec(),
                    timeout_seconds: parsed_u64(old(self).gui_spec().gui_timeout.value_spec())->0,
                    cookie_path: old(self).gui_spec().gui_cookie_path.value_spec(),
                },
            ),
            !old(self).gui_sane_spec() ==> r == Err::<(), GuiError>(GuiError::GuiInputIsInsane)
                && final(self).in_use_spec() == old(self).in_use_spec(),
    {
        if !self.is_gui_input_sane() {
            return Err(GuiError::GuiInputIsInsane);
        }
        let timeout = self.get_gui_timeout();
        let seconds = match parse_u64(timeout.as_str()) {
            Some(n) => n,
            None => {
                return Err(GuiError::GuiInputIsInsane);
            },
        };
        let in_use = BitcoincoreClientSettingInUse {
            in_use_url: self.get_gui_url(),
            in_use_rpc_port: self.get_gui_rpc_port(),
            in_use_timeout_seconds: seconds,
            in_use_cookie_path: self.get_gui_cookie_path(),
        };
        self.in_use = Some(in_use);
        Ok(())
    }

    /// Takes a typed address, trimmed.
    pub fn set_url_from_gui_input(&mut self, url: String)
        requires
            old(self).wf(),
        ensures
            final(self).wf(),
            final(self).in_use_spec() == old(self).in_use_spec(),
            final(self).gui_spec().gui_url.value_spec() == trimmed(url@),
            final(self).gui_spec().gui_url.sanity_spec() == pattern_matches(URL_PATTERN, trimmed(url@)),
            final(self).gui_spec().gui_rpc_port == old(self).gui_spec().gui_rpc_port,
            final(self).gui_spec().gui_timeout == old(self).gui_spec().gui_timeout,
            final(self).gui_spec().gui_cookie_path == old(self).gui_spec().gui_cookie_path,
    {
        proof {
            lemma_trim_is_idempotent(url@);
        }
        self.gui_input.gui_url = UrlGuiData::new(trim_to_string(url.as_str()));
    }

    /// Takes a typed RPC port, trimmed.
    pub fn set_rpc_port_from_gui_input(&mut self, rpc_port: String)
        requires
            old(self).wf(),
        ensures
            final(self).wf(),
            final(self).in_use_spec() == old(self).in_use_spec(),
            final(self).gui_spec().gui_rpc_port.value_spec() == trimmed(rpc_port@),
            final(self).gui_spec().gui_rpc_port.sanity_spec() == pattern_matches(DIGITS_PATTERN, trimmed(rpc_port@)),
            final(self).gui_spec().gui_url == old(self).gui_spec().gui_url,
            final(self).gui_spec().gui_timeout == old(self).gui_spec().gui_timeout,
            final(self).gui_spec().gui_cookie_path == old(self).gui_spec().gui_cookie_path,
    {
        self.gui_input.gui_rpc_port = RpcPortGuiData::new(trim_to_string(rpc_port.as_str()));
    }

    /// Takes a typed timeout, trimmed.
    pub fn set_timeout_from_gui_input(&mut self, timeout: String)
        requires
            old(self).wf(),
        ensures
            final(self).wf(),
            final(self).in_use_spec() == old(self).in_use_spec(),
            final(self).gui_spec().gui_timeout.value_spec() == trimmed(timeout@),
            final(self).gui_spec().gui_timeout.sanity_spec() == (pattern_matches(DIGITS_PATTERN, trimmed(timeout@))
                && parsed_u64(trimmed(timeout@)) is Some),
            final(self).gui_spec().gui_url == old(self).gui_spec().gui_url,
            final(self).gui_spec().gui_rpc_port == old(self).gui_spec().gui_rpc_port,
            final(self).gui_spec().gui_cookie_path == old(self).gui_spec().gui_cookie_path,
    {
        self.gui_input.gui_timeout = TimeoutGuiData::new(trim_to_string(timeout.as_str()));
    }

    /// Takes a typed cookie path, trimmed, with whether the trimmed path
    /// names an existing file called `.cookie`.
    pub fn set_cookie_path_from_gui_input(&mut self, cookie_path: String, is_cookie_file: bool)
        requires
            old(self).wf(),
        ensures
            final(self).wf(),
            final(self).in_use_spec() == old(self).in_use_spec(),
            final(self).gui_spec().gui_cookie_path.value_spec() == trimmed(cookie_path@),
            final(self).gui_spec().gui_cookie_path.sanity_spec() == is_cookie_file,
            final(self).gui_spec().gui_url == old(self).gui_spec().gui_url,
            final(self).gui_spec().gui_rpc_port == old(self).gui_spec().gui_rpc_port,
            final(self).gui_spec().gui_timeout == old(self).gui_spec().gui_timeout,
    {
        self.gui_input.gui_cookie_path = CookiePathGuiData::new(
            trim_to_string(cookie_path.as_str()),
            is_cookie_file,
        );
    }

    pub fn get_gui_url(&self) -> (r: String)
        ensures
            r@ == self.gui_spec().gui_url.value_spec(),
    {
        self.gui_input.gui_url.get_value()
    }

    pub fn get_gui_rpc_port(&self) -> (r: String)
        ensures
            r@ == self.gui_spec().gui_rpc_port.value_spec(),
    {
        self.gui_input.gui_rpc_port.get_value()
    }

    pub fn get_gui_timeout(&self) -> (r: String)
        ensures
            r@ == self.gui_spec().gui_timeout.value_spec(),
    {
        self.gui_input.gui_timeout.get_value()
    }

    pub fn get_gui_cookie_path(&self) -> (r: String)
        ensures
            r@ == self.gui_spec().gui_cookie_path.value_spec(),
    {
        self.gui_input.gui_cookie_path.get_value()
    }

    /// The address in use, or an empty text.
    pub fn get_in_use_url(&self) -> (r: String)
        ensures
            r@ == self.in_use_url_text(),
    {
        match &self.in_use {
            Some(in_use) => in_use.in_use_url.clone(),
            None => String::new(),
        }
    }

    /// The RPC port in use, or an empty text.
    pub fn get_in_use_rpc_port(&self) -> (r: String)
        ensures
            r@ == self.in_use_rpc_port_text(),
    {
        match &self.in_use {
            Some(in_use) => in_use.in_use_rpc_port.clone(),
            None => String::new(),
        }
    }

    /// The timeout in use, in decimal, or an empty text.
    pub fn get_in_use_timeout(&self) -> (r: String)
        ensures
            r@ == self.in_use_timeout_text(),
    {
        match &self.in_use {
            Some(in_use) => u64_to_decimal(in_use.in_use_timeout_seconds),
            None => String::new(),
        }
    }

    /// The cookie path in use, or an empty text.
    pub fn get_in_use_cookie_path(&self) -> (r: String)
        ensures
            r@ == self.in_use_cookie_path_text(),
    {
        match &self.in_use {
            Some(in_use) => in_use.in_use_cookie_path.clone(),
            None => String::new(),
        }
    }

    pub fn is_gui_input_sane(&self) -> (r: bool)
        ensures
            r == self.gui_sane_spec(),
    {
        self.gui_input.gui_url.is_sane() && self.gui_input.gui_rpc_port.is_sane()
            && self.gui_input.gui_timeout.is_sane() && self.gui_input.gui_cookie_path.is_sane()
    }

    pub fn is_gui_url_sane(&self) -> (r: bool)
        ensures
            r == self.gui_spec().gui_url.sanity_spec(),
    {
        self.gui_input.gui_url.is_sane()
    }

    pub fn is_gui_rpc_port_sane(&self) -> (r: bool)
        ensures
            r == self.gui_spec().gui_rpc_port.sanity_spec(),
    {
        self.gui_input.gui_rpc_port.is_sane()
    }

    pub fn is_gui_timeout_sane(&self) -> (r: bool)
        ensures
            r == self.gui_spec().gui_timeout.sanity_spec(),
    {
        self.gui_input.gui_timeout.is_sane()
    }

    pub fn is_gui_cookie_path_sane(&self) -> (r: bool)
        ensures
            r == self.gui_spec().gui_cookie_path.sanity_spec(),
    {
        self.gui_input.gui_cookie_path.is_sane()
    }

    /// Whether settings are in use and the typed address equals the one in
    /// use.
    pub fn is_url_fixed(&self) -> (r: bool)
        ensures
            r == (self.in_use_spec() is Some && self.gui_spec().gui_url.value_spec()
                == self.in_use_url_text()),
    {
        self.in_use.is_some() && self.get_gui_url() == self.get_in_use_url()
    }

    pub fn is_rpc_port_fixed(&self) -> (r: bool)
        ensures
            r == (self.in_use_spec() is Some && self.gui_spec().gui_rpc_port.value_spec()
                == self.in_use_rpc_port_text()),
    {
        self.in_use.is_some() && self.get_gui_rpc_port() == self.get_in_use_rpc_port()
    }

    pub fn is_timeout_fixed(&self) -> (r: bool)
        ensures
            r == (self.in_use_spec() is Some && self.gui_spec().gui_timeout.value_spec()
                == self.in_use_timeout_text()),
    {
        self.in_use.is_some() && self.get_gui_timeout() == self.get_in_use_timeout()
    }

    pub fn is_cookie_path_fixed(&self) -> (r: bool)
        ensures
            r == (self.in_use_spec() is Some && self.gui_spec().gui_cookie_path.value_spec()
                == self.in_use_cookie_path_text()),
    {
        self.in_use.is_some() && self.get_gui_cookie_path() == self.get_in_use_cookie_path()
    }

    /// Whether each typed setting equals the text of the one in use (an
    /// empty text when none is in use).
    pub fn is_input_fixed(&self) -> (r: bool)
        ensures
            r == (self.gui_spec().gui_url.value_spec() == self.in_use_url_text()
                && self.gui_spec().gui_rpc_port.value_spec() == self.in_use_rpc_port_text()
                && self.gui_spec().gui_timeout.value_spec() == self.in_use_timeout_text()
                && self.gui_spec().gui_cookie_path.value_spec() == self.in_use_cookie_path_text()),
    {
        self.get_gui_url() == self.get_in_use_url() && self.get_gui_rpc_port()
            == self.get_in_use_rpc_port() && self.get_gui_timeout() == self.get_in_use_timeout()
            && self.get_gui_cookie_path() == self.get_in_use_cookie_path()
    }
}

impl Default for BitcoincoreClientInput {
    fn default() -> (r: Self)
        ensures
            r.wf(),
            r.in_use_spec() is None,
            r.gui_spec().gui_url.value_spec() == "127.0.0.1"@,
            r.gui_spec().gui_rpc_port.value_spec() == "8332"@,
            r.gui_spec().gui_timeout.value_spec() == seq!['6', '8', '0', '0'],
            r.gui_spec().gui_cookie_path.value_spec() == Seq::<char>::empty(),
    {
        Self::new()
    }
}

} // verus!
