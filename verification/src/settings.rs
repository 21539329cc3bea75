//! Settings: a map from keys to texts, and how the recorder reads it.

use vstd::prelude::*;

use crate::decimal::{
    decimal, i64_number, lemma_u32_reads_back, read_i64, read_u32, u32_number, write_u32,
};
use crate::text::{begins, blank, is_blank, same_text, text_begins, white_space};

verus! {

/// The map that a row of entries stands for: of two entries with one key the
/// later one counts.
pub open spec fn entries_map(entries: Seq<(String, String)>) -> Map<Seq<char>, Seq<char>>
    decreases entries.len(),
{
    if entries.len() == 0 {
        Map::empty()
    } else {
        entries_map(entries.drop_last()).insert(entries.last().0@, entries.last().1@)
    }
}

/// The settings as they were last read from the store.
#[derive(Debug)]
pub struct Settings {
    entries: Vec<(String, String)>,
}

impl View for Settings {
    type V = Map<Seq<char>, Seq<char>>;

    closed spec fn view(&self) -> Map<Seq<char>, Seq<char>> {
        entries_map(self.entries@)
    }
}

proof fn lemma_entries_absent(entries: Seq<(String, String)>, key: Seq<char>)
    requires
        forall|i: int| 0 <= i < entries.len() ==> (#[trigger] entries[i]).0@ != key,
    ensures
        !entries_map(entries).contains_key(key),
    decreases entries.len(),
{
    if entries.len() > 0 {
        let front = entries.drop_last();
        assert forall|i: int| 0 <= i < front.len() implies (#[trigger] front[i]).0@ != key by {
            assert(front[i] == entries[i]);
        }
        assert(entries.last() == entries[entries.len() - 1]);
        lemma_entries_absent(front, key);
    }
}

proof fn lemma_entries_found(entries: Seq<(String, String)>, at: int)
    requires
        0 <= at < entries.len(),
        forall|i: int| at < i < entries.len() ==> (#[trigger] entries[i]).0@ != entries[at].0@,
    ensures
        entries_map(entries).contains_key(entries[at].0@),
        entries_map(entries)[entries[at].0@] == entries[at].1@,
    decreases entries.len(),
{
    if at < entries.len() - 1 {
        let front = entries.drop_last();
        assert forall|i: int| at < i < front.len() implies (#[trigger] front[i]).0@
            != front[at].0@ by {
            assert(front[i] == entries[i]);
        }
        lemma_entries_found(front, at);
        assert(entries.last() == entries[entries.len() - 1]);
    }
}

proof fn lemma_entries_updated(entries: Seq<(String, String)>, at: int, entry: (String, String))
    requires
        0 <= at < entries.len(),
        entry.0@ == entries[at].0@,
        forall|i: int| at < i < entries.len() ==> (#[trigger] entries[i]).0@ != entries[at].0@,
    ensures
        entries_map(entries.update(at, entry)) == entries_map(entries).insert(entry.0@, entry.1@),
    decreases entries.len(),
{
    let next = entries.update(at, entry);
    let front = entries.drop_last();
    if at < entries.len() - 1 {
        assert forall|i: int| at < i < front.len() implies (#[trigger] front[i]).0@
            != front[at].0@ by {
            assert(front[i] == entries[i]);
        }
        lemma_entries_updated(front, at, entry);
        assert(next.drop_last() =~= front.update(at, entry));
        assert(entries.last() == entries[entries.len() - 1]);
        assert(next.last() == entries.last());
    } else {
        assert(next.drop_last() =~= front);
    }
    assert(entries_map(next) =~= entries_map(entries).insert(entry.0@, entry.1@));
}

impl Settings {
    /// Settings without entries.
    pub fn new() -> (r: Self)
        ensures
            r@ == Map::<Seq<char>, Seq<char>>::empty(),
    {
        Settings { entries: Vec::new() }
    }

    /// What the store gave back; a store that cannot be read counts as one
    /// without entries.
    pub fn or_empty(read: Result<Settings, String>) -> (r: Self)
        ensures
            r@ == (match read {
                Ok(s) => s@,
                Err(_) => Map::<Seq<char>, Seq<char>>::empty(),
            }),
    {
        match read {
            Ok(s) => s,
            Err(_) => Settings::new(),
        }
    }

    /// The last entry with this key, if there is one.
    fn position(&self, key: &str) -> (r: Option<usize>)
        ensures
            r matches Some(at) ==> {
                &&& at < self.entries@.len()
                &&& self.entries@[at as int].0@ == key@
                &&& forall|i: int|
                    at < i < self.entries@.len() ==> (#[trigger] self.entries@[i]).0@ != key@
            },
            r is None ==> forall|i: int|
                0 <= i < self.entries@.len() ==> (#[trigger] self.entries@[i]).0@ != key@,
    {
        let mut n: usize = self.entries.len();
        while n > 0
            invariant
                n <= self.entries@.len(),
                forall|i: int|
                    n <= i < self.entries@.len() ==> (#[trigger] self.entries@[i]).0@ != key@,
            decreases n,
        {
            n = n - 1;
            if same_text(self.entries[n].0.as_str(), key) {
                return Some(n);
            }
        }
        None
    }

    /// The value of `key`.
    pub fn get(&self, key: &str) -> (r: Option<&str>)
        ensures
            r is Some <==> self@.contains_key(key@),
            r matches Some(v) ==> v@ == self@[key@],
    {
        match self.position(key) {
            Some(at) => {
                proof {
                    lemma_entries_found(self.entries@, at as int);
                }
                Some(self.entries[at].1.as_str())
            },
            None => {
                proof {
                    lemma_entries_absent(self.entries@, key@);
                }
                None
            },
        }
    }

    /// Gives `key` a value.
    pub fn set(&mut self, key: &str, value: &str)
        ensures
            final(self)@ == old(self)@.insert(key@, value@),
    {
        let entry: (String, String) = (key.to_owned(), value.to_owned());
        match self.position(key) {
            Some(at) => {
                proof {
                    lemma_entries_updated(self.entries@, at as int, entry);
                }
                self.entries.set(at, entry);
            },
            None => {
                let ghost before = self.entries@;
                self.entries.push(entry);
                assert(self.entries@.drop_last() =~= before);
            },
        }
    }
}

/// The value of `key`, or `default` where there is none or it is blank.
pub open spec fn setting_text(
    s: Map<Seq<char>, Seq<char>>,
    key: Seq<char>,
    default: Seq<char>,
) -> Seq<char> {
    if s.contains_key(key) && !blank(s[key]) {
        s[key]
    } else {
        default
    }
}

/// The value of `key`, or `default` where there is none or it is blank.
pub fn setting_str(settings: &Settings, key: &str, default: &str) -> (r: String)
    ensures
        r@ == setting_text(settings@, key@, default@),
{
    match settings.get(key) {
        Some(v) => if is_blank(v) {
            default.to_owned()
        } else {
            v.to_owned()
        },
        None => default.to_owned(),
    }
}

/// `x`, moved into `lo..=hi`.
pub open spec fn clamped(x: int, lo: int, hi: int) -> int {
    if x < lo {
        lo
    } else if x > hi {
        hi
    } else {
        x
    }
}

/// The buffer length in seconds: 30 where it is not set or not a number, and
/// always from 5 to 300.
pub open spec fn buffer_length(s: Map<Seq<char>, Seq<char>>) -> int {
    let set = if s.contains_key("buffer_seconds"@) {
        i64_number(s["buffer_seconds"@])
    } else {
        None
    };
    clamped(
        match set {
            Some(n) => n as int,
            None => 30,
        },
        5,
        300,
    )
}

/// The buffer length in seconds.
pub fn buffer_seconds(settings: &Settings) -> (r: i64)
    ensures
        r == buffer_length(settings@),
        5 <= r <= 300,
{
    let n: i64 = match settings.get("buffer_seconds") {
        Some(v) => match read_i64(v) {
            Some(n) => n,
            None => 30,
        },
        None => 30,
    };
    if n < 5 {
        5
    } else if n > 300 {
        300
    } else {
        n
    }
}

/// Whether messages are shown in Spanish: also where no locale is set.
pub open spec fn spanish(s: Map<Seq<char>, Seq<char>>) -> bool {
    s.contains_key("locale"@) ==> begins(s["locale"@], "es"@)
}

/// Whether messages are shown in Spanish.
pub fn is_spanish(settings: &Settings) -> (r: bool)
    ensures
        r == spanish(settings@),
{
    match settings.get("locale") {
        Some(l) => text_begins(l, "es"),
        None => true,
    }
}

/// The body of a notification in the language that is set.
pub fn notify<'a>(settings: &Settings, body_es: &'a str, body_en: &'a str) -> (r: &'a str)
    ensures
        r@ == message(settings@, body_es@, body_en@),
        r@ == (if spanish(settings@) {
            body_es@
        } else {
            body_en@
        }),
{
    if is_spanish(settings) {
        body_es
    } else {
        body_en
    }
}

/// The settings that the running recorder was started with: a change of one of
/// them takes effect only in a new recorder.
pub open spec fn restart_key(key: Seq<char>) -> bool {
    ||| key == "buffer_seconds"@
    ||| key == "mic_device"@
    ||| key == "desktop_device"@
    ||| key == "video_codec"@
    ||| key == "out_height"@
    ||| key == "fps"@
    ||| key == "monitor"@
}

/// What follows once a setting was handed to the store.
#[derive(Debug, Clone, Copy, PartialEq, Eq, Structural)]
pub enum SettingEffect {
    /// Nothing more.
    Stored,
    /// Stop the recorder, start it anew and tell the user.
    Restart,
}

/// What follows a setting that was stored.
pub open spec fn effect_of(key: Seq<char>, running: bool) -> SettingEffect {
    if restart_key(key) && running {
        SettingEffect::Restart
    } else {
        SettingEffect::Stored
    }
}

/// The text in the language that is set.
pub open spec fn message(s: Map<Seq<char>, Seq<char>>, es: Seq<char>, en: Seq<char>) -> Seq<char> {
    if spanish(s) {
        es
    } else {
        en
    }
}

/// A setting was handed to the store with the given outcome.
pub fn set_setting(stored: Result<(), String>, key: &str, running: bool) -> (r: Result<
    SettingEffect,
    String,
>)
    ensures
        r is Err <==> stored is Err,
        r matches Err(e) ==> stored matches Err(s) && e@ == s@,
        r matches Ok(effect) ==> effect == effect_of(key@, running),
        r matches Ok(effect) ==> effect == (if restart_key(key@) && running {
            SettingEffect::Restart
        } else {
            SettingEffect::Stored
        }),
{
    match stored {
        Err(e) => Err(e),
        Ok(_) => {
            let restarts: bool = same_text(key, "buffer_seconds") || same_text(key, "mic_device")
                || same_text(key, "desktop_device") || same_text(key, "video_codec") || same_text(
                key,
                "out_height",
            ) || same_text(key, "fps") || same_text(key, "monitor");
            if restarts && running {
                Ok(SettingEffect::Restart)
            } else {
                Ok(SettingEffect::Stored)
            }
        },
    }
}

/// The gain of each track in percent, and whether it is muted.
#[derive(Debug, Clone, Copy, PartialEq, Eq, Structural)]
pub struct TrackGains {
    pub game: u32,
    pub mic: u32,
    pub mute_game: bool,
    pub mute_mic: bool,
}

/// A gain setting: 100 where it is not set or not a number, 200 at most.
pub open spec fn gain_of(s: Map<Seq<char>, Seq<char>>, key: Seq<char>) -> u32 {
    let set = if s.contains_key(key) {
        u32_number(s[key])
    } else {
        None
    };
    let n = match set {
        Some(n) => n,
        None => 100,
    };
    if n > 200 {
        200
    } else {
        n
    }
}

/// A switch: on where its value is `1` or `true`.
pub open spec fn flag_of(s: Map<Seq<char>, Seq<char>>, key: Seq<char>) -> bool {
    s.contains_key(key) && (s[key] == "1"@ || s[key] == "true"@)
}

/// The gains that the settings hold.
pub open spec fn gains_of(s: Map<Seq<char>, Seq<char>>) -> TrackGains {
    TrackGains {
        game: gain_of(s, "gain_game"@),
        mic: gain_of(s, "gain_mic"@),
        mute_game: flag_of(s, "mute_game"@),
        mute_mic: flag_of(s, "mute_mic"@),
    }
}

fn read_gain(settings: &Settings, key: &str) -> (r: u32)
    ensures
        r == gain_of(settings@, key@),
{
    let n: u32 = match settings.get(key) {
        Some(v) => match read_u32(v) {
            Some(n) => n,
            None => 100,
        },
        None => 100,
    };
    if n > 200 {
        200
    } else {
        n
    }
}

fn read_flag(settings: &Settings, key: &str) -> (r: bool)
    ensures
        r == flag_of(settings@, key@),
{
    match settings.get(key) {
        Some(v) => same_text(v, "1") || same_text(v, "true"),
        None => false,
    }
}

/// The gains that the settings hold.
pub fn read_gains(settings: &Settings) -> (r: TrackGains)
    ensures
        r == gains_of(settings@),
        r.game <= 200,
        r.mic <= 200,
{
    TrackGains {
        game: read_gain(settings, "gain_game"),
        mic: read_gain(settings, "gain_mic"),
        mute_game: read_flag(settings, "mute_game"),
        mute_mic: read_flag(settings, "mute_mic"),
    }
}

/// The gains shown to the user are those that the settings hold.
pub fn audio_levels(settings: &Settings) -> (r: TrackGains)
    ensures
        r == gains_of(settings@),
{
    read_gains(settings)
}

/// Whether `track` names one of the two tracks.
pub open spec fn known_track(track: Seq<char>) -> bool {
    track == "game"@ || track == "mic"@
}

/// Refuses a name that is neither `game` nor `mic`.
pub fn check_track(track: &str) -> (r: Result<(), String>)
    ensures
        r is Ok <==> known_track(track@),
        r matches Err(e) ==> e@ == "track must be 'game' or 'mic'"@,
{
    if same_text(track, "game") || same_text(track, "mic") {
        Ok(())
    } else {
        Err("track must be 'game' or 'mic'".to_owned())
    }
}

/// A key and the value that the store is to hold for it.
#[derive(Debug)]
pub struct SettingWrite {
    pub key: String,
    pub value: String,
}

/// The key of a track's gain.
pub open spec fn gain_key(track: Seq<char>) -> Seq<char> {
    if track == "game"@ {
        "gain_game"@
    } else {
        "gain_mic"@
    }
}

/// The key of a track's mute switch.
pub open spec fn mute_key(track: Seq<char>) -> Seq<char> {
    if track == "game"@ {
        "mute_game"@
    } else {
        "mute_mic"@
    }
}

/// The text that the store holds for a gain of `percent`.
pub open spec fn gain_value(percent: u32) -> Seq<char> {
    decimal(
        if percent > 200 {
            200
        } else {
            percent as nat
        },
    )
}

/// The text that the store holds for a mute switch.
pub open spec fn mute_value(muted: bool) -> Seq<char> {
    if muted {
        "1"@
    } else {
        "0"@
    }
}

/// What to store so that `track` has a gain of `percent`, 200 at most.
pub fn set_track_gain(track: &str, percent: u32) -> (r: Result<SettingWrite, String>)
    ensures
        r is Ok <==> known_track(track@),
        r matches Err(e) ==> e@ == "track must be 'game' or 'mic'"@,
        r matches Ok(w) ==> w.key@ == gain_key(track@) && w.value@ == gain_value(percent),
{
    match check_track(track) {
        Err(e) => Err(e),
        Ok(_) => {
            let pct: u32 = if percent > 200 {
                200
            } else {
                percent
            };
            let key: &str = if same_text(track, "game") {
                "gain_game"
            } else {
                "gain_mic"
            };
            Ok(SettingWrite { key: key.to_owned(), value: write_u32(pct) })
        },
    }
}

/// What to store so that `track` is muted or heard.
pub fn set_track_mute(track: &str, muted: bool) -> (r: Result<SettingWrite, String>)
    ensures
        r is Ok <==> known_track(track@),
        r matches Err(e) ==> e@ == "track must be 'game' or 'mic'"@,
        r matches Ok(w) ==> w.key@ == mute_key(track@) && w.value@ == mute_value(muted),
{
    match check_track(track) {
        Err(e) => Err(e),
        Ok(_) => {
            let key: &str = if same_text(track, "game") {
                "mute_game"
            } else {
                "mute_mic"
            };
            let value: &str = if muted {
                "1"
            } else {
                "0"
            };
            Ok(SettingWrite { key: key.to_owned(), value: value.to_owned() })
        },
    }
}

proof fn lemma_track_keys()
    ensures
        "game"@ != "mic"@,
        "gain_game"@ != "gain_mic"@,
        "gain_game"@ != "mute_game"@,
        "gain_game"@ != "mute_mic"@,
        "gain_mic"@ != "mute_game"@,
        "gain_mic"@ != "mute_mic"@,
        "mute_game"@ != "mute_mic"@,
        "0"@ != "1"@,
        "0"@ != "true"@,
{
    reveal_strlit("game");
    reveal_strlit("mic");
    reveal_strlit("gain_game");
    reveal_strlit("gain_mic");
    reveal_strlit("mute_game");
    reveal_strlit("mute_mic");
    reveal_strlit("0");
    reveal_strlit("1");
    reveal_strlit("true");
    assert("game"@.len() != "mic"@.len());
    assert("gain_game"@.len() != "gain_mic"@.len());
    assert("gain_game"@.len() != "mute_mic"@.len());
    assert("mute_game"@.len() != "gain_mic"@.len());
    assert("mute_game"@.len() != "mute_mic"@.len());
    assert("0"@.len() != "true"@.len());
    assert("gain_game"@[0] != "mute_game"@[0]);
    assert("gain_mic"@[0] != "mute_mic"@[0]);
    assert("0"@[0] != "1"@[0]);
}

/// A gain that was stored for a track is the gain that is read back, up to the
/// ceiling of 200, and nothing else changes.
pub proof fn law_stored_gain_reads_back(
    s: Map<Seq<char>, Seq<char>>,
    track: Seq<char>,
    percent: u32,
)
    requires
        known_track(track),
    ensures
        ({
            let before = gains_of(s);
            let after = gains_of(s.insert(gain_key(track), gain_value(percent)));
            let kept: u32 = if percent > 200 {
                200
            } else {
                percent
            };
            after == if track == "game"@ {
                TrackGains { game: kept, ..before }
            } else {
                TrackGains { mic: kept, ..before }
            }
        }),
{
    lemma_track_keys();
    lemma_u32_reads_back(
        if percent > 200 {
            200
        } else {
            percent
        },
    );
}

/// A mute switch that was stored for a track is the one that is read back, and
/// nothing else changes.
pub proof fn law_stored_mute_reads_back(
    s: Map<Seq<char>, Seq<char>>,
    track: Seq<char>,
    muted: bool,
)
    requires
        known_track(track),
    ensures
        ({
            let before = gains_of(s);
            let after = gains_of(s.insert(mute_key(track), mute_value(muted)));
            after == if track == "game"@ {
                TrackGains { mute_game: muted, ..before }
            } else {
                TrackGains { mute_mic: muted, ..before }
            }
        }),
{
    lemma_track_keys();
}

/// No stored value, and no missing one, brings the buffer length or a gain out
/// of its range.
pub proof fn law_settings_stay_in_range(s: Map<Seq<char>, Seq<char>>)
    ensures
        5 <= buffer_length(s) <= 300,
        gains_of(s).game <= 200,
        gains_of(s).mic <= 200,
{
}

/// The buffer length is the one that is set as long as it lies from 5 to 300; a
/// shorter one counts as 5, a longer one as 300, and none at all as 30.
pub proof fn law_buffer_length_is_the_one_set(s: Map<Seq<char>, Seq<char>>, n: i64)
    ensures
        ({
            let set = s.contains_key("buffer_seconds"@);
            let read = i64_number(s["buffer_seconds"@]);
            &&& set && read == Some(n) && 5 <= n <= 300 ==> buffer_length(s) == n
            &&& set && read == Some(n) && n < 5 ==> buffer_length(s) == 5
            &&& set && read == Some(n) && n > 300 ==> buffer_length(s) == 300
            &&& !set || read is None ==> buffer_length(s) == 30
        }),
{
}

/// A gain is the one that is set as long as it is at most 200; a greater one counts
/// as 200, and none at all as 100. A track is muted where its switch is `1` or
/// `true`.
pub proof fn law_gains_are_those_set(s: Map<Seq<char>, Seq<char>>, n: u32)
    ensures
        ({
            let g = gains_of(s);
            let game = s.contains_key("gain_game"@);
            let mic = s.contains_key("gain_mic"@);
            &&& game && u32_number(s["gain_game"@]) == Some(n) ==> g.game == if n <= 200 {
                n
            } else {
                200
            }
            &&& mic && u32_number(s["gain_mic"@]) == Some(n) ==> g.mic == if n <= 200 {
                n
            } else {
                200
            }
            &&& !game || u32_number(s["gain_game"@]) is None ==> g.game == 100
            &&& !mic || u32_number(s["gain_mic"@]) is None ==> g.mic == 100
            &&& g.mute_game <==> s.contains_key("mute_game"@) && (s["mute_game"@] == "1"@
                || s["mute_game"@] == "true"@)
            &&& g.mute_mic <==> s.contains_key("mute_mic"@) && (s["mute_mic"@] == "1"@
                || s["mute_mic"@] == "true"@)
        }),
{
}

/// A gain is stored under its track's key as its own number, up to 200, a mute switch
/// as `1` or `0`.
pub proof fn law_what_is_stored(percent: u32, muted: bool)
    ensures
        percent <= 200 ==> gain_value(percent) == decimal(percent as nat),
        percent > 200 ==> gain_value(percent) == decimal(200),
        muted ==> mute_value(muted) == "1"@,
        !muted ==> mute_value(muted) == "0"@,
        gain_key("game"@) == "gain_game"@,
        gain_key("mic"@) == "gain_mic"@,
        mute_key("game"@) == "mute_game"@,
        mute_key("mic"@) == "mute_mic"@,
        known_track("game"@) && known_track("mic"@),
{
    lemma_track_keys();
}

/// No other name than those two is a track.
pub proof fn law_two_tracks(track: Seq<char>)
    requires
        known_track(track),
    ensures
        track == "game"@ || track == "mic"@,
{
}

/// A value that holds anything but white space is read as it is; a blank one and a
/// missing one count as the default.
pub proof fn law_blank_counts_as_missing(
    s: Map<Seq<char>, Seq<char>>,
    key: Seq<char>,
    default: Seq<char>,
    i: int,
)
    ensures
        s.contains_key(key) && 0 <= i < s[key].len() && !white_space(s[key][i]) ==> setting_text(
            s,
            key,
            default,
        ) == s[key],
        s.contains_key(key) && (forall|j: int|
            0 <= j < s[key].len() ==> white_space(#[trigger] s[key][j])) ==> setting_text(
            s,
            key,
            default,
        ) == default,
        !s.contains_key(key) ==> setting_text(s, key, default) == default,
{
}

/// Messages are in Spanish where the locale begins with `es`, and where none is set.
pub proof fn law_spanish_locales(s: Map<Seq<char>, Seq<char>>)
    ensures
        !s.contains_key("locale"@) ==> spanish(s),
        s.contains_key("locale"@) ==> (spanish(s) <==> s["locale"@].len() >= 2 && s["locale"@][0]
            == 'e' && s["locale"@][1] == 's'),
{
    reveal_strlit("es");
    if s.contains_key("locale"@) && s["locale"@].len() >= 2 {
        let l = s["locale"@];
        assert(l.take(2)[0] == l[0] && l.take(2)[1] == l[1]);
        assert(l[0] == 'e' && l[1] == 's' ==> l.take(2) =~= "es"@);
    }
}

/// A change of what the recorder was started with, and of nothing else, restarts it.
pub proof fn law_keys_that_restart(key: Seq<char>)
    ensures
        restart_key("buffer_seconds"@),
        restart_key("mic_device"@),
        restart_key("desktop_device"@),
        restart_key("video_codec"@),
        restart_key("out_height"@),
        restart_key("fps"@),
        restart_key("monitor"@),
        restart_key(key) ==> key == "buffer_seconds"@ || key == "mic_device"@ || key
            == "desktop_device"@ || key == "video_codec"@ || key == "out_height"@ || key == "fps"@
            || key == "monitor"@,
{
}

/// A running recorder is restarted by the settings that it was started with, and by
/// no other; one that does not run is never restarted.
pub proof fn law_what_a_setting_brings(key: Seq<char>, running: bool)
    ensures
        !running ==> effect_of(key, running) == SettingEffect::Stored,
        running ==> (effect_of(key, running) == SettingEffect::Restart <==> key
            == "buffer_seconds"@ || key == "mic_device"@ || key == "desktop_device"@ || key
            == "video_codec"@ || key == "out_height"@ || key == "fps"@ || key == "monitor"@),
{
    law_keys_that_restart(key);
}

/// A message is one of the two texts: the Spanish one where no locale is set or it
/// begins with `es`.
pub proof fn law_message_follows_the_locale(
    s: Map<Seq<char>, Seq<char>>,
    es: Seq<char>,
    en: Seq<char>,
)
    ensures
        ({
            let l = s["locale"@];
            let other = s.contains_key("locale"@) && !(l.len() >= 2 && l[0] == 'e' && l[1] == 's');
            &&& other ==> message(s, es, en) == en
            &&& !other ==> message(s, es, en) == es
        }),
{
    law_spanish_locales(s);
}

} // verus!
