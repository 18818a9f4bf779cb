//! The user's configuration: where saves live, who the user is and which
//! turn they are on.
use vstd::prelude::*;
use crate::text::{push_str, push_decimal, chars_of, same_chars, lower_all, lower_chars, u32_of, parse_u32, decimal, string_of};
use crate::save::{Side, side_name};
use crate::parse::detected_side;
use crate::path::{join, join_path};

verus! {

/// The abstract value of [`TeamNames`].
pub struct TeamNamesView {
    pub axis: Seq<char>,
    pub allies: Seq<char>,
}

/// The names the two teams go by in save names.  "Axis" plays first and
/// "Allies" second by default, but any names can be used.
#[derive(Clone, Debug)]
pub struct TeamNames {
    pub axis: String,
    pub allies: String,
}

impl View for TeamNames {
    type V = TeamNamesView;

    open spec fn view(&self) -> TeamNamesView {
        TeamNamesView { axis: self.axis@, allies: self.allies@ }
    }
}

/// The default team names, `Axis` and `Allies`.
pub open spec fn default_team_names() -> TeamNamesView {
    TeamNamesView {
        axis: seq!['A', 'x', 'i', 's'],
        allies: seq!['A', 'l', 'l', 'i', 'e', 's'],
    }
}

impl TeamNames {
    /// Team names from the names of the first and the second team.
    pub fn new(names: (String, String)) -> (r: TeamNames)
        ensures
            r.axis == names.0,
            r.allies == names.1,
    {
        let (axis, allies) = names;
        TeamNames { axis, allies }
    }

    /// A copy of these names.
    pub fn duplicate(&self) -> (r: TeamNames)
        ensures
            r@ == self@,
    {
        TeamNames { axis: self.axis.clone(), allies: self.allies.clone() }
    }
}

impl Default for TeamNames {
    fn default() -> (r: TeamNames)
        ensures
            r@ == default_team_names(),
    {
        let mut axis = String::new();
        push_str(&mut axis, "Axis");
        let mut allies = String::new();
        push_str(&mut allies, "Allies");
        proof {
            reveal_strlit("Axis");
            reveal_strlit("Allies");
            assert(axis@ =~= default_team_names().axis);
            assert(allies@ =~= default_team_names().allies);
        }
        TeamNames::new((axis, allies))
    }
}

/// The settings of the configuration.
#[derive(Debug, Clone, Copy, PartialEq, Eq, Structural)]
pub enum Key {
    Dropbox,
    Saves,
    SevenZipPath,
    Side,
    Player,
    Turn,
}

/// What can go wrong when reading or changing a setting.
#[derive(Debug, Clone, PartialEq, Eq)]
pub enum ConfigError {
    /// The text (in lower case) names no setting.
    InvalidKey(String),
    /// The value given for this setting is a value of another setting.
    InvalidSetting(Key),
    /// The text given for the turn is not a turn number.
    InvalidTurnNumber,
    /// The text given for the side names neither side.
    UnknownSide(String),
}

/// The abstract value of a [`ConfigError`].
pub enum ConfigErrorView {
    InvalidKey(Seq<char>),
    InvalidSetting(Key),
    InvalidTurnNumber,
    UnknownSide(Seq<char>),
}

impl View for ConfigError {
    type V = ConfigErrorView;

    open spec fn view(&self) -> ConfigErrorView {
        match self {
            ConfigError::InvalidKey(k) => ConfigErrorView::InvalidKey(k@),
            ConfigError::InvalidSetting(key) => ConfigErrorView::InvalidSetting(*key),
            ConfigError::InvalidTurnNumber => ConfigErrorView::InvalidTurnNumber,
            ConfigError::UnknownSide(s) => ConfigErrorView::UnknownSide(s@),
        }
    }
}

/// What the user is told of a [`ConfigError`]: `invalid key: colour`,
/// `invalid setting for key turn`, `invalid turn number`, `unknown side
/// Russia`.
pub open spec fn config_error_text(e: ConfigErrorView) -> Seq<char> {
    match e {
        ConfigErrorView::InvalidKey(k) => "invalid key: "@ + k,
        ConfigErrorView::InvalidSetting(key) => "invalid setting for key "@ + key_name(key),
        ConfigErrorView::InvalidTurnNumber => "invalid turn number"@,
        ConfigErrorView::UnknownSide(s) => "unknown side "@ + s,
    }
}

impl ConfigError {
    /// What the user is told of this error, see [`config_error_text`].
    pub fn to_string(&self) -> (r: String)
        ensures
            r@ == config_error_text(self@),
    {
        let mut s = String::new();
        match self {
            ConfigError::InvalidKey(k) => {
                push_str(&mut s, "invalid key: ");
                push_str(&mut s, k.as_str());
            },
            ConfigError::InvalidSetting(key) => {
                push_str(&mut s, "invalid setting for key ");
                let name = key.to_string();
                push_str(&mut s, name.as_str());
            },
            ConfigError::InvalidTurnNumber => push_str(&mut s, "invalid turn number"),
            ConfigError::UnknownSide(t) => {
                push_str(&mut s, "unknown side ");
                push_str(&mut s, t.as_str());
            },
        }
        s
    }
}

/// The name a setting is shown with.
pub open spec fn key_name(k: Key) -> Seq<char> {
    match k {
        Key::Dropbox => "dropbox"@,
        Key::Saves => "saves"@,
        Key::SevenZipPath => "seven_zip_path"@,
        Key::Side => "side"@,
        Key::Player => "player"@,
        Key::Turn => "turn"@,
    }
}

/// The setting a text names: one of the names or aliases of the settings,
/// regardless of ASCII case.
pub open spec fn key_of(s: Seq<char>) -> Option<Key> {
    let l = lower_all(s);
    if l == "dropbox"@ {
        Some(Key::Dropbox)
    } else if l == "saves"@ || l == "save"@ {
        Some(Key::Saves)
    } else if l == "seven_zip_path"@ || l == "sevenzippath"@ || l == "seven-zip-path"@ || l == "seven zip path"@ || l == "sevenzip path"@ || l == "sevenzip-path"@ || l == "7zpath"@ || l == "7z path"@ || l == "7z-path"@ || l == "7z_path"@ {
        Some(Key::SevenZipPath)
    } else if l == "side"@ || l == "team"@ {
        Some(Key::Side)
    } else if l == "player"@ || l == "name"@ {
        Some(Key::Player)
    } else if l == "turn"@ {
        Some(Key::Turn)
    } else {
        None
    }
}

impl Key {
    /// The name of the setting, such as `seven_zip_path`.
    pub fn to_string(&self) -> (r: String)
        ensures
            r@ == key_name(*self),
    {
        let mut s = String::new();
        let name = match self {
            Key::Dropbox => "dropbox",
            Key::Saves => "saves",
            Key::SevenZipPath => "seven_zip_path",
            Key::Side => "side",
            Key::Player => "player",
            Key::Turn => "turn",
        };
        push_str(&mut s, name);
        s
    }
}

fn is_word(l: &Vec<char>, w: &str) -> (r: bool)
    ensures
        r == (l@ == w@),
{
    let w = chars_of(w);
    same_chars(l, &w)
}

/// The setting `s` names, see [`key_of`].
pub fn key_from_str(s: &str) -> (r: Result<Key, ConfigError>)
    ensures
        match r {
            Ok(k) => key_of(s@) == Some(k),
            Err(e) => key_of(s@) is None && e@ == ConfigErrorView::InvalidKey(lower_all(s@)),
        },
{
    let l = lower_chars(s);
    if is_word(&l, "dropbox") {
        return Ok(Key::Dropbox);
    }
    if is_word(&l, "saves") || is_word(&l, "save") {
        return Ok(Key::Saves);
    }
    if is_word(&l, "seven_zip_path") || is_word(&l, "sevenzippath") || is_word(&l, "seven-zip-path") || is_word(&l, "seven zip path") || is_word(&l, "sevenzip path") || is_word(&l, "sevenzip-path") || is_word(&l, "7zpath") || is_word(&l, "7z path") || is_word(&l, "7z-path") || is_word(&l, "7z_path") {
        return Ok(Key::SevenZipPath);
    }
    if is_word(&l, "side") || is_word(&l, "team") {
        return Ok(Key::Side);
    }
    if is_word(&l, "player") || is_word(&l, "name") {
        return Ok(Key::Player);
    }
    if is_word(&l, "turn") {
        return Ok(Key::Turn);
    }
    let shown = string_of(&l, 0, l.len());
    assert(shown@ =~= lower_all(s@));
    Err(ConfigError::InvalidKey(shown))
}

impl core::str::FromStr for Key {
    type Err = ConfigError;

    /// The setting `s` names, see [`key_from_str`].
    fn from_str(s: &str) -> (r: Result<Key, ConfigError>)
        ensures
            match r {
                Ok(k) => key_of(s@) == Some(k),
                Err(e) => key_of(s@) is None && e@ == ConfigErrorView::InvalidKey(lower_all(s@)),
            },
    {
        key_from_str(s)
    }
}

/// The abstract value of a [`Setting`].
pub enum SettingView {
    Dropbox(Seq<char>),
    Saves(Seq<char>),
    SevenZipPath(Seq<char>),
    Side(Side),
    Player(Seq<char>),
    Turn(u32),
}

/// The value of one setting.
#[derive(Clone, Debug)]
pub enum Setting {
    Dropbox(String),
    Saves(String),
    SevenZipPath(String),
    Side(Side),
    Player(String),
    Turn(u32),
}

impl View for Setting {
    type V = SettingView;

    open spec fn view(&self) -> SettingView {
        match self {
            Setting::Dropbox(p) => SettingView::Dropbox(p@),
            Setting::Saves(p) => SettingView::Saves(p@),
            Setting::SevenZipPath(p) => SettingView::SevenZipPath(p@),
            Setting::Side(s) => SettingView::Side(*s),
            Setting::Player(p) => SettingView::Player(p@),
            Setting::Turn(t) => SettingView::Turn(*t),
        }
    }
}

/// The setting a value is for.
pub open spec fn setting_key(v: SettingView) -> Key {
    match v {
        SettingView::Dropbox(_) => Key::Dropbox,
        SettingView::Saves(_) => Key::Saves,
        SettingView::SevenZipPath(_) => Key::SevenZipPath,
        SettingView::Side(_) => Key::Side,
        SettingView::Player(_) => Key::Player,
        SettingView::Turn(_) => Key::Turn,
    }
}

/// The value for `key` that the text `value` stands for: paths and the
/// player are taken as they are, a side is detected in the text (see
/// [`detected_side`]) and a turn is read as a `u32` (see [`u32_of`]).
pub open spec fn spec_new_setting(key: Key, value: Seq<char>) -> Option<SettingView> {
    match key {
        Key::Dropbox => Some(SettingView::Dropbox(value)),
        Key::Saves => Some(SettingView::Saves(value)),
        Key::SevenZipPath => Some(SettingView::SevenZipPath(value)),
        Key::Side => match detected_side(value) {
            Some(side) => Some(SettingView::Side(side)),
            None => None,
        },
        Key::Player => Some(SettingView::Player(value)),
        Key::Turn => match u32_of(value) {
            Some(n) => Some(SettingView::Turn(n)),
            None => None,
        },
    }
}

/// Why the text `value` is no value for `key` (when [`spec_new_setting`]
/// gives none): a side names neither side, and a turn is no turn number.
pub open spec fn setting_error(key: Key, value: Seq<char>) -> ConfigErrorView {
    match key {
        Key::Side => ConfigErrorView::UnknownSide(value),
        _ => ConfigErrorView::InvalidTurnNumber,
    }
}

/// The text a setting is shown as.
pub open spec fn setting_text(v: SettingView) -> Seq<char> {
    match v {
        SettingView::Dropbox(p) => p,
        SettingView::Saves(p) => p,
        SettingView::SevenZipPath(p) => p,
        SettingView::Side(s) => side_name(s),
        SettingView::Player(p) => p,
        SettingView::Turn(n) => decimal(n as nat),
    }
}

impl Setting {
    /// The value for `key` written as `value`, see [`spec_new_setting`].
    pub fn new(key: Key, value: String) -> (r: Result<Setting, ConfigError>)
        ensures
            match r {
                Ok(s) => spec_new_setting(key, value@) == Some(s@),
                Err(e) => spec_new_setting(key, value@) is None && e@ == setting_error(key, value@),
            },
    {
        match key {
            Key::Dropbox => Ok(Setting::Dropbox(value)),
            Key::Saves => Ok(Setting::Saves(value)),
            Key::SevenZipPath => Ok(Setting::SevenZipPath(value)),
            Key::Side => match Side::detect_side_in_string(value.as_str()) {
                Ok(side) => Ok(Setting::Side(side)),
                Err(e) => Err(ConfigError::UnknownSide(e.0)),
            },
            Key::Player => Ok(Setting::Player(value)),
            Key::Turn => match parse_u32(value.as_str()) {
                Some(n) => Ok(Setting::Turn(n)),
                None => Err(ConfigError::InvalidTurnNumber),
            },
        }
    }

    /// The text this value is shown as, see [`setting_text`].
    pub fn to_string(&self) -> (r: String)
        ensures
            r@ == setting_text(self@),
    {
        match self {
            Setting::Dropbox(p) => p.clone(),
            Setting::Saves(p) => p.clone(),
            Setting::SevenZipPath(p) => p.clone(),
            Setting::Side(s) => s.to_string(),
            Setting::Player(p) => p.clone(),
            Setting::Turn(n) => {
                let mut s = String::new();
                push_decimal(&mut s, *n);
                s
            },
        }
    }
}

/// The abstract value of a [`Config`].
pub struct ConfigView {
    pub saves: Seq<char>,
    pub side: Side,
    pub player: Seq<char>,
    pub turn: u32,
    pub dropbox: Seq<char>,
    pub seven_zip_path: Seq<char>,
    pub team_names: TeamNamesView,
}

/// The user's configuration.
#[derive(Debug)]
pub struct Config {
    /// the folder the game keeps its saves in
    pub saves: String,
    /// the side the user plays
    pub side: Side,
    /// how the user signs their saves
    pub player: String,
    /// the turn the user is on
    pub turn: u32,
    /// the shared folder saves are exchanged through
    pub dropbox: String,
    /// where the 7-Zip program lives
    pub seven_zip_path: String,
    /// the names of the teams in save names
    pub team_names: TeamNames,
}

impl View for Config {
    type V = ConfigView;

    open spec fn view(&self) -> ConfigView {
        ConfigView {
            saves: self.saves@,
            side: self.side,
            player: self.player@,
            turn: self.turn,
            dropbox: self.dropbox@,
            seven_zip_path: self.seven_zip_path@,
            team_names: self.team_names@,
        }
    }
}

/// The value of setting `key` in `c`.
pub open spec fn spec_get(c: ConfigView, key: Key) -> SettingView {
    match key {
        Key::Dropbox => SettingView::Dropbox(c.dropbox),
        Key::Saves => SettingView::Saves(c.saves),
        Key::SevenZipPath => SettingView::SevenZipPath(c.seven_zip_path),
        Key::Side => SettingView::Side(c.side),
        Key::Player => SettingView::Player(c.player),
        Key::Turn => SettingView::Turn(c.turn),
    }
}

/// `c` with setting `key` changed to `value`, when the value is one for that
/// setting.
pub open spec fn spec_set(c: ConfigView, key: Key, value: SettingView) -> Option<ConfigView> {
    match (key, value) {
        (Key::Dropbox, SettingView::Dropbox(p)) => Some(ConfigView { dropbox: p, ..c }),
        (Key::Saves, SettingView::Saves(p)) => Some(ConfigView { saves: p, ..c }),
        (Key::SevenZipPath, SettingView::SevenZipPath(p)) => Some(ConfigView { seven_zip_path: p, ..c }),
        (Key::Side, SettingView::Side(s)) => Some(ConfigView { side: s, ..c }),
        (Key::Player, SettingView::Player(p)) => Some(ConfigView { player: p, ..c }),
        (Key::Turn, SettingView::Turn(n)) => Some(ConfigView { turn: n, ..c }),
        _ => None,
    }
}

impl Config {
    /// The value of setting `key`.
    pub fn get(&self, key: Key) -> (r: Setting)
        ensures
            r@ == spec_get(self@, key),
    {
        match key {
            Key::Dropbox => Setting::Dropbox(self.dropbox.clone()),
            Key::Saves => Setting::Saves(self.saves.clone()),
            Key::SevenZipPath => Setting::SevenZipPath(self.seven_zip_path.clone()),
            Key::Side => Setting::Side(self.side),
            Key::Player => Setting::Player(self.player.clone()),
            Key::Turn => Setting::Turn(self.turn),
        }
    }

    /// This configuration with setting `key` changed to `value`; fails when
    /// the value is for another setting.
    pub fn set(self, key: Key, value: Setting) -> (r: Result<Config, ConfigError>)
        ensures
            match r {
                Ok(c) => spec_set(self@, key, value@) == Some(c@),
                Err(e) => spec_set(self@, key, value@) is None && e@ == ConfigErrorView::InvalidSetting(key),
            },
    {
        let mut config = self;
        match (key, value) {
            (Key::Dropbox, Setting::Dropbox(value)) => {
                config.dropbox = value;
            },
            (Key::Saves, Setting::Saves(value)) => {
                config.saves = value;
            },
            (Key::SevenZipPath, Setting::SevenZipPath(value)) => {
                config.seven_zip_path = value;
            },
            (Key::Side, Setting::Side(value)) => {
                config.side = value;
            },
            (Key::Player, Setting::Player(value)) => {
                config.player = value;
            },
            (Key::Turn, Setting::Turn(value)) => {
                config.turn = value;
            },
            _ => {
                return Err(ConfigError::InvalidSetting(key));
            },
        }
        Ok(config)
    }
}

/// A setting read back after it was set is the value that was set, and the
/// other settings are what they were.
pub proof fn lemma_get_after_set(c: ConfigView, key: Key, value: SettingView)
    requires
        spec_set(c, key, value) is Some,
    ensures
        spec_get(spec_set(c, key, value)->0, key) == value,
        forall|other: Key| other != key ==> spec_get(spec_set(c, key, value)->0, other) == spec_get(c, other),
        spec_set(c, key, value)->0.team_names == c.team_names,
{
}

/// A setting accepts exactly the values that are for it.
pub proof fn lemma_set_accepts_its_values(c: ConfigView, key: Key, value: SettingView)
    ensures
        spec_set(c, key, value) is Some <==> setting_key(value) == key,
{
}

/// Setting a setting to the value it has changes nothing.
pub proof fn lemma_set_to_current_value(c: ConfigView, key: Key)
    ensures
        spec_set(c, key, spec_get(c, key)) == Some(c),
{
}

/// A value made from a text for a setting is a value for that setting, so
/// the configuration accepts it.
pub proof fn lemma_new_setting_is_for_its_key(key: Key, text: Seq<char>, c: ConfigView)
    requires
        spec_new_setting(key, text) is Some,
    ensures
        setting_key(spec_new_setting(key, text)->0) == key,
        spec_set(c, key, spec_new_setting(key, text)->0) is Some,
{
}

/// Every setting is named back to itself by its own name.
pub proof fn lemma_key_name_read_back(key: Key)
    ensures
        key_of(key_name(key)) == Some(key),
{
    reveal_strlit("dropbox");
    reveal_strlit("saves");
    reveal_strlit("save");
    reveal_strlit("seven_zip_path");
    reveal_strlit("sevenzippath");
    reveal_strlit("seven-zip-path");
    reveal_strlit("seven zip path");
    reveal_strlit("sevenzip path");
    reveal_strlit("sevenzip-path");
    reveal_strlit("7zpath");
    reveal_strlit("7z path");
    reveal_strlit("7z-path");
    reveal_strlit("7z_path");
    reveal_strlit("side");
    reveal_strlit("team");
    reveal_strlit("player");
    reveal_strlit("name");
    reveal_strlit("turn");
    match key {
        Key::Dropbox => {
            assert(lower_all("dropbox"@) =~= "dropbox"@);
            assert(key_of("dropbox"@) == Some(Key::Dropbox));
            assert(key_of(key_name(key)) == Some(key));
        },
        Key::Saves => {
            assert(lower_all("saves"@) =~= "saves"@);
            assert("saves"@ != "dropbox"@);
            assert(key_of(key_name(key)) == Some(key));
        },
        Key::SevenZipPath => {
            assert(lower_all("seven_zip_path"@) =~= "seven_zip_path"@);
            assert(key_of(key_name(key)) == Some(key));
        },
        Key::Side => {
            assert(lower_all("side"@) =~= "side"@);
            assert("side"@[1] != "save"@[1]);
            assert("side"@ != "7zpath"@);
            assert(key_of(key_name(key)) == Some(key));
        },
        Key::Player => {
            assert(lower_all("player"@) =~= "player"@);
            assert("player"@[0] != "7zpath"@[0]);
            assert(key_of(key_name(key)) == Some(key));
        },
        Key::Turn => {
            assert(lower_all("turn"@) =~= "turn"@);
            assert("turn"@[0] != "save"@[0]);
            assert("turn"@[0] != "side"@[0]);
            assert("turn"@[1] != "team"@[1]);
            assert("turn"@[0] != "name"@[0]);
            assert(key_of(key_name(key)) == Some(key));
        },
    }
}

/// The characters trimmed from both ends of a value typed for a setting:
/// quotes, spaces and backslashes.
pub open spec fn is_trimmed_char(c: char) -> bool {
    c == '\'' || c == '"' || c == ' ' || c == '\\'
}

/// How many trimmed characters `s` starts with.
pub open spec fn leading_trimmed(s: Seq<char>) -> nat
    decreases s.len(),
{
    if s.len() > 0 && is_trimmed_char(s[0]) {
        1 + leading_trimmed(s.drop_first())
    } else {
        0
    }
}

/// How many trimmed characters `s` ends with.
pub open spec fn trailing_trimmed(s: Seq<char>) -> nat
    decreases s.len(),
{
    if s.len() > 0 && is_trimmed_char(s.last()) {
        1 + trailing_trimmed(s.drop_last())
    } else {
        0
    }
}

/// `s` without the trimmed characters at its ends.
pub open spec fn normalised(s: Seq<char>) -> Seq<char> {
    let a = leading_trimmed(s);
    if a >= s.len() {
        Seq::empty()
    } else {
        s.subrange(a as int, s.len() - trailing_trimmed(s))
    }
}

proof fn lemma_leading_step(s: Seq<char>, i: int)
    requires
        0 <= i < s.len(),
        is_trimmed_char(s[i]),
    ensures
        leading_trimmed(s.skip(i)) == 1 + leading_trimmed(s.skip(i + 1)),
{
    assert(s.skip(i).drop_first() =~= s.skip(i + 1));
}

proof fn lemma_trailing_step(s: Seq<char>, j: int)
    requires
        0 < j <= s.len(),
        is_trimmed_char(s[j - 1]),
    ensures
        trailing_trimmed(s.take(j)) == 1 + trailing_trimmed(s.take(j - 1)),
{
    assert(s.take(j).drop_last() =~= s.take(j - 1));
}

proof fn lemma_leading_bound(s: Seq<char>)
    ensures
        leading_trimmed(s) <= s.len(),
    decreases s.len(),
{
    if s.len() > 0 && is_trimmed_char(s[0]) {
        lemma_leading_bound(s.drop_first());
    }
}

/// A value typed for a setting without the quotes, spaces and backslashes
/// around it, see [`normalised`].
pub fn normalise(value: String) -> (r: String)
    ensures
        r@ == normalised(value@),
{
    let v = chars_of(value.as_str());
    let n = v.len();
    let mut a: usize = 0;
    assert(v@.skip(0) =~= v@);
    while a < n && (v[a] == '\'' || v[a] == '"' || v[a] == ' ' || v[a] == '\\')
        invariant
            a <= n,
            n == v@.len(),
            v@ == value@,
            leading_trimmed(v@) == a + leading_trimmed(v@.skip(a as int)),
        decreases n - a,
    {
        proof {
            lemma_leading_step(v@, a as int);
        }
        a += 1;
    }
    proof {
        if a < n {
            assert(!is_trimmed_char(v@.skip(a as int)[0]));
        } else {
            assert(v@.skip(a as int).len() == 0);
        }
        assert(leading_trimmed(v@.skip(a as int)) == 0);
    }
    if a == n {
        return String::new();
    }
    let mut b: usize = n;
    assert(v@.take(n as int) =~= v@);
    while b > a + 1 && (v[b - 1] == '\'' || v[b - 1] == '"' || v[b - 1] == ' ' || v[b - 1] == '\\')
        invariant
            a < b <= n,
            n == v@.len(),
            !is_trimmed_char(v@[a as int]),
            trailing_trimmed(v@) == (n - b) + trailing_trimmed(v@.take(b as int)),
        decreases b,
    {
        proof {
            lemma_trailing_step(v@, b as int);
        }
        b -= 1;
    }
    proof {
        let t = v@.take(b as int);
        if b == a + 1 {
            assert(t.last() == v@[a as int]);
        }
        assert(!is_trimmed_char(t.last()));
        assert(trailing_trimmed(t) == 0);
    }
    string_of(&v, a, b)
}

/// Where the game keeps hotseat saves, relative to the user's home folder.
pub open spec fn hotseat_folder() -> Seq<char> {
    "Documents\\My Games\\Strategic Command WWII - World at War\\Multiplayer\\Hotseat"@
}

/// Where 7-Zip is installed by default.
pub open spec fn default_seven_zip_path() -> Seq<char> {
    "C:\\Program Files\\7-Zip\\"@
}

/// The configuration made for a new user: the game's hotseat folder in
/// their home folder, 7-Zip where it is installed by default, the default
/// team names, and what the user told.
pub open spec fn spec_default_config(dropbox: Seq<char>, home: Seq<char>, side: Side, player: Seq<char>, turn: u32) -> ConfigView {
    ConfigView {
        saves: join(home, hotseat_folder()),
        side,
        player,
        turn,
        dropbox,
        seven_zip_path: default_seven_zip_path(),
        team_names: default_team_names(),
    }
}

/// The configuration made for a new user, see [`spec_default_config`].
pub fn default_config(dropbox: String, home: &str, side: Side, player: String, turn: u32) -> (r: Config)
    ensures
        r@ == spec_default_config(dropbox@, home@, side, player@, turn),
{
    let saves = join_path(home, "Documents\\My Games\\Strategic Command WWII - World at War\\Multiplayer\\Hotseat");
    let mut seven_zip_path = String::new();
    push_str(&mut seven_zip_path, "C:\\Program Files\\7-Zip\\");
    Config { saves, side, player, turn, dropbox, seven_zip_path, team_names: TeamNames::default() }
}

/// What `config get` shows for a setting.
pub fn config_get_text(config: &Config, key: Key) -> (r: String)
    ensures
        r@ == setting_text(spec_get(config@, key)),
{
    config.get(key).to_string()
}

/// What `config set` does: the value typed, without quotes, spaces and
/// backslashes around it (see [`normalised`]), read for the setting and set.
pub fn config_set(config: Config, key: Key, value: String) -> (r: Result<Config, ConfigError>)
    ensures
        match spec_new_setting(key, normalised(value@)) {
            Some(v) => r matches Ok(c) && spec_set(config@, key, v) == Some(c@),
            None => r matches Err(e) && e@ == setting_error(key, normalised(value@)),
        },
{
    let text = normalise(value);
    let ghost typed = text@;
    match Setting::new(key, text) {
        Ok(setting) => {
            proof {
                lemma_new_setting_is_for_its_key(key, typed, config@);
            }
            config.set(key, setting)
        },
        Err(e) => Err(e),
    }
}

} // verus!
