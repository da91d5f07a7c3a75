//! Runtime settings of the bridge and the generator of access tokens.

use crate::random::random_below;
use vstd::prelude::*;

verus! {

/// The settings every component reads. A value is never changed while a
/// server runs against it; an update replaces it as a whole.
#[derive(Debug, Clone, PartialEq, Eq)]
pub struct Config {
    pub host: String,
    pub port: u16,
    pub max_file_size_mb: u64,
    pub rate_limit_per_minute: u32,
    pub api_token: Option<String>,
    pub auto_start: bool,
    pub minimize_to_tray: bool,
    pub allowed_origins: Vec<String>,
    pub allowed_file_types: Vec<String>,
    pub default_printer: Option<String>,
}

/// The mathematical value of a [`Config`].
pub struct ConfigView {
    pub host: Seq<char>,
    pub port: u16,
    pub max_file_size_mb: u64,
    pub rate_limit_per_minute: u32,
    pub api_token: Option<Seq<char>>,
    pub auto_start: bool,
    pub minimize_to_tray: bool,
    pub allowed_origins: Seq<Seq<char>>,
    pub allowed_file_types: Seq<Seq<char>>,
    pub default_printer: Option<Seq<char>>,
}

impl View for Config {
    type V = ConfigView;

    open spec fn view(&self) -> ConfigView {
        ConfigView {
            host: self.host@,
            port: self.port,
            max_file_size_mb: self.max_file_size_mb,
            rate_limit_per_minute: self.rate_limit_per_minute,
            api_token: self.api_token.deep_view(),
            auto_start: self.auto_start,
            minimize_to_tray: self.minimize_to_tray,
            allowed_origins: self.allowed_origins.deep_view(),
            allowed_file_types: self.allowed_file_types.deep_view(),
            default_printer: self.default_printer.deep_view(),
        }
    }
}

impl ConfigView {
    /// What a usable configuration satisfies: some content type is
    /// accepted, and the rate limit admits at least one request.
    pub open spec fn valid(self) -> bool {
        self.allowed_file_types.len() > 0 && self.rate_limit_per_minute > 0
    }

    /// The settings of a first run: loopback on port 8765, 50 MB, 60
    /// requests a minute, no token, any origin, the four content types.
    pub open spec fn initial() -> ConfigView {
        ConfigView {
            host: "127.0.0.1"@,
            port: 8765,
            max_file_size_mb: 50,
            rate_limit_per_minute: 60,
            api_token: None,
            auto_start: false,
            minimize_to_tray: true,
            allowed_origins: seq!["*"@],
            allowed_file_types: seq!["pdf"@, "html"@, "text"@, "image"@],
            default_printer: None,
        }
    }
}

impl Config {
    /// Decides [`ConfigView::valid`].
    pub fn is_valid(&self) -> (ok: bool)
        ensures
            ok == self@.valid(),
    {
        self.allowed_file_types.len() > 0 && self.rate_limit_per_minute > 0
    }
}

impl Default for Config {
    fn default() -> (config: Config)
        ensures
            config@ == ConfigView::initial(),
            config@.valid(),
    {
        let mut origins: Vec<String> = Vec::new();
        origins.push(String::from_str("*"));
        let mut types: Vec<String> = Vec::new();
        types.push(String::from_str("pdf"));
        types.push(String::from_str("html"));
        types.push(String::from_str("text"));
        types.push(String::from_str("image"));
        let config = Config {
            host: String::from_str("127.0.0.1"),
            port: 8765,
            max_file_size_mb: 50,
            rate_limit_per_minute: 60,
            api_token: None,
            auto_start: false,
            minimize_to_tray: true,
            allowed_origins: origins,
            allowed_file_types: types,
            default_printer: None,
        };
        assert(config@.allowed_origins =~= ConfigView::initial().allowed_origins);
        assert(config@.allowed_file_types =~= ConfigView::initial().allowed_file_types);
        config
    }
}

/// The characters a token is drawn from: the 62 ASCII letters and digits.
pub open spec fn token_alphabet() -> Seq<char> {
    "ABCDEFGHIJKLMNOPQRSTUVWXYZabcdefghijklmnopqrstuvwxyz0123456789"@
}

/// What every generated token satisfies: 32 characters of the alphabet.
pub open spec fn is_token(text: Seq<char>) -> bool {
    &&& text.len() == 32
    &&& forall|i: int| 0 <= i < text.len() ==> token_alphabet().contains(#[trigger] text[i])
}

/// The token that spells out `picks`: character `i` is the letter of the
/// alphabet at index `picks[i]`, taken modulo the alphabet's length.
pub open spec fn token_of(picks: Seq<usize>) -> Seq<char> {
    Seq::new(picks.len(), |i: int| token_alphabet()[picks[i] as int % 62])
}

/// Spells out the token for a sequence of picks.
pub fn token_from_picks(picks: &Vec<usize>) -> (token: String)
    ensures
        token@ == token_of(picks@),
{
    let alphabet = "ABCDEFGHIJKLMNOPQRSTUVWXYZabcdefghijklmnopqrstuvwxyz0123456789";
    proof {
        reveal_strlit("ABCDEFGHIJKLMNOPQRSTUVWXYZabcdefghijklmnopqrstuvwxyz0123456789");
    }
    let mut token = String::new();
    let mut i: usize = 0;
    while i < picks.len()
        invariant
            i <= picks.len(),
            alphabet@ == token_alphabet(),
            alphabet@.len() == 62,
            token@ == token_of(picks@.take(i as int)),
        decreases picks.len() - i,
    {
        let at: usize = picks[i] % 62;
        let letter = alphabet.substring_char(at, at + 1);
        token.append(letter);
        proof {
            assert(letter@ =~= seq![token_alphabet()[at as int]]);
            assert(token@ =~= token_of(picks@.take(i + 1)));
        }
        i += 1;
    }
    assert(picks@.take(picks.len() as int) =~= picks@);
    token
}

/// A fresh access token: 32 characters, each drawn at random from the 62
/// ASCII letters and digits.
pub fn generate_secure_token() -> (token: String)
    ensures
        is_token(token@),
{
    let mut rng = rand::thread_rng();
    let mut picks: Vec<usize> = Vec::new();
    let mut i: usize = 0;
    while i < 32
        invariant
            i <= 32,
            picks.len() == i,
            forall|k: int| 0 <= k < picks.len() ==> picks[k] < 62,
        decreases 32 - i,
    {
        let pick = random_below(&mut rng, 62);
        picks.push(pick);
        i += 1;
    }
    let token = token_from_picks(&picks);
    proof {
        reveal_strlit("ABCDEFGHIJKLMNOPQRSTUVWXYZabcdefghijklmnopqrstuvwxyz0123456789");
        assert forall|k: int| 0 <= k < token@.len() implies token_alphabet().contains(
            #[trigger] token@[k],
        ) by {
            assert(token@[k] == token_alphabet()[picks[k] as int]);
        }
    }
    token
}

} // verus!
