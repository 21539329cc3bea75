//! File names: how clips are called and what stands beside them.

use vstd::prelude::*;

use crate::decimal::{
    decimal, digit_char, law_padded_reads_back, lemma_decimal_reads_back, padded, unsigned_number,
    write_padded, write_u32, zeros,
};
use crate::text::{begins, chars_of, holds, same_text, stands_at, text_begins, text_holds};

verus! {

/// A moment of local time.
#[derive(Debug, Clone, Copy, PartialEq, Eq, Structural)]
pub struct LocalTime {
    pub year: u16,
    pub month: u16,
    pub day: u16,
    pub hour: u16,
    pub minute: u16,
    pub second: u16,
}

/// The name of a clip that was saved at that time.
pub open spec fn replay_name(t: LocalTime) -> Seq<char> {
    "replay_"@ + padded(t.year as nat, 4) + "-"@ + padded(t.month as nat, 2) + "-"@ + padded(
        t.day as nat,
        2,
    ) + "_"@ + padded(t.hour as nat, 2) + "-"@ + padded(t.minute as nat, 2) + "-"@ + padded(
        t.second as nat,
        2,
    ) + ".mp4"@
}

/// The name of a clip that was saved at that time:
/// `replay_YYYY-MM-DD_HH-MM-SS.mp4`.
pub fn replay_filename(t: LocalTime) -> (r: String)
    ensures
        r@ == replay_name(t),
{
    let mut out: String = "replay_".to_owned();
    out.append(write_padded(t.year as u32, 4).as_str());
    out.append("-");
    out.append(write_padded(t.month as u32, 2).as_str());
    out.append("-");
    out.append(write_padded(t.day as u32, 2).as_str());
    out.append("_");
    out.append(write_padded(t.hour as u32, 2).as_str());
    out.append("-");
    out.append(write_padded(t.minute as u32, 2).as_str());
    out.append("-");
    out.append(write_padded(t.second as u32, 2).as_str());
    out.append(".mp4");
    out
}

/// The place of the dot that parts a name's stem from its extension. A dot at
/// the very front parts nothing.
pub open spec fn parting_dot(name: Seq<char>, i: int) -> bool {
    &&& name != ".."@
    &&& 0 < i < name.len()
    &&& name[i] == '.'
    &&& forall|j: int| i < j < name.len() ==> name[j] != '.'
}

/// A name without its extension.
pub open spec fn stem_of_name(name: Seq<char>) -> Seq<char> {
    if exists|i: int| parting_dot(name, i) {
        name.take(choose|i: int| parting_dot(name, i))
    } else {
        name
    }
}

/// A name's extension, without the dot.
pub open spec fn extension_of(name: Seq<char>) -> Option<Seq<char>> {
    if exists|i: int| parting_dot(name, i) {
        Some(name.skip((choose|i: int| parting_dot(name, i)) + 1))
    } else {
        None
    }
}

fn find_dot(name: &str) -> (r: Option<usize>)
    ensures
        r matches Some(i) ==> parting_dot(name@, i as int),
        r is None ==> forall|i: int| !parting_dot(name@, i),
{
    if same_text(name, "..") {
        return None;
    }
    let x: Vec<char> = chars_of(name);
    let mut n: usize = x.len();
    while n > 1
        invariant
            x@ == name@,
            name@ != ".."@,
            n <= x@.len(),
            forall|j: int| n <= j < x@.len() ==> x@[j] != '.',
        decreases n,
    {
        n = n - 1;
        if x[n] == '.' {
            return Some(n);
        }
    }
    None
}

/// A name without its extension.
pub fn file_stem(name: &str) -> (r: &str)
    ensures
        r@ == stem_of_name(name@),
{
    match find_dot(name) {
        Some(i) => {
            assert(i == choose|k: int| parting_dot(name@, k));
            assert(name@.take(i as int) =~= name@.subrange(0, i as int));
            name.substring_char(0, i)
        },
        None => name,
    }
}

/// A name's extension, without the dot.
pub fn extension(name: &str) -> (r: Option<&str>)
    ensures
        r is Some <==> extension_of(name@) is Some,
        r matches Some(e) ==> extension_of(name@) == Some(e@),
{
    match find_dot(name) {
        Some(i) => {
            assert(i == choose|k: int| parting_dot(name@, k));
            assert(name@.skip(i + 1) =~= name@.subrange(i + 1, name@.len() as int));
            let n: usize = name.unicode_len();
            Some(name.substring_char(i + 1, n))
        },
        None => None,
    }
}

/// The `n`th name to try where `name` is taken.
pub open spec fn numbered(name: Seq<char>, n: nat) -> Seq<char> {
    stem_of_name(name) + "_"@ + decimal(n) + "."@ + (match extension_of(name) {
        Some(e) => e,
        None => "mp4"@,
    })
}

/// The `n`th name to try where `name` is taken.
pub fn numbered_name(name: &str, n: u32) -> (r: String)
    ensures
        r@ == numbered(name@, n as nat),
{
    let mut out: String = file_stem(name).to_owned();
    out.append("_");
    out.append(write_u32(n).as_str());
    out.append(".");
    match extension(name) {
        Some(e) => out.append(e),
        None => out.append("mp4"),
    }
    out
}

/// The name of a clip's thumbnail.
pub open spec fn thumbnail_name(name: Seq<char>) -> Seq<char> {
    "thumb_"@ + stem_of_name(name) + ".jpg"@
}

/// The name of a clip's thumbnail.
pub fn thumb_name(name: &str) -> (r: String)
    ensures
        r@ == thumbnail_name(name@),
{
    let mut out: String = "thumb_".to_owned();
    out.append(file_stem(name));
    out.append(".jpg");
    out
}

/// Names that could lead out of the clips folder.
pub open spec fn leads_out(name: Seq<char>) -> bool {
    holds(name, ".."@) || begins(name, "/"@) || begins(name, "\\"@)
}

/// The path of a clip for playback: `joined` is the clips folder with the name
/// appended, or why there is no such folder. A name that could lead out of the
/// folder is refused.
pub fn resolve_clip_src(file_name: &str, joined: Result<String, String>) -> (r: Result<
    String,
    String,
>)
    ensures
        leads_out(file_name@) ==> (r matches Err(e) && e@ == "invalid file name"@),
        !leads_out(file_name@) ==> r == joined,
{
    if text_holds(file_name, "..") || text_begins(file_name, "/") || text_begins(file_name, "\\") {
        return Err("invalid file name".to_owned());
    }
    joined
}

/// `n` in decimal with exactly `w` digits, its last `w` where it has more.
spec fn fixed(n: nat, w: nat) -> Seq<char>
    decreases w,
{
    if w == 0 {
        Seq::empty()
    } else {
        fixed(n / 10, (w - 1) as nat).push(digit_char(n % 10))
    }
}

spec fn ten_to(w: nat) -> nat
    decreases w,
{
    if w == 0 {
        1
    } else {
        10 * ten_to((w - 1) as nat)
    }
}

proof fn lemma_fixed_zero(w: nat)
    ensures
        fixed(0, w) == zeros(w),
    decreases w,
{
    if w > 0 {
        lemma_fixed_zero((w - 1) as nat);
        assert(fixed(0, w) =~= zeros(w));
    } else {
        assert(fixed(0, w) =~= zeros(w));
    }
}

proof fn lemma_fixed_is_padded(n: nat, w: nat)
    requires
        w >= 1,
        n < ten_to(w),
    ensures
        padded(n, w) == fixed(n, w),
        fixed(n, w).len() == w,
        decimal(n).len() <= w,
    decreases w,
{
    if n < 10 {
        lemma_fixed_zero((w - 1) as nat);
        assert(padded(n, w) =~= fixed(n, w));
    } else {
        assert(w >= 2) by {
            if w == 1 {
                assert(ten_to(1) == 10 * ten_to(0));
            }
        }
        lemma_fixed_is_padded(n / 10, (w - 1) as nat);
        assert(decimal(n).len() == decimal(n / 10).len() + 1);
        assert(padded(n, w) =~= padded(n / 10, (w - 1) as nat).push(digit_char(n % 10)));
    }
}

/// Whether `a` stands before `b` in the order of texts of one length.
pub open spec fn sorts_before(a: Seq<char>, b: Seq<char>) -> bool {
    &&& a.len() == b.len()
    &&& exists|k: int| parts_at(a, b, k)
}

/// Whether two texts agree up to `k`, where `a` has the smaller character.
pub open spec fn parts_at(a: Seq<char>, b: Seq<char>, k: int) -> bool {
    &&& 0 <= k < a.len()
    &&& (a[k] as u32) < b[k] as u32
    &&& forall|j: int| 0 <= j < k ==> a[j] == b[j]
}

proof fn lemma_sorts_once(a: Seq<char>, b: Seq<char>)
    ensures
        !(sorts_before(a, b) && sorts_before(b, a)),
        !sorts_before(a, a),
{
    if sorts_before(a, b) && sorts_before(b, a) {
        let k = choose|k: int| parts_at(a, b, k);
        let l = choose|l: int| parts_at(b, a, l);
        if k < l {
            assert(a[k] == b[k]);
        } else if l < k {
            assert(a[l] == b[l]);
        }
    }
}

proof fn lemma_fixed_sorts(x: nat, y: nat, w: nat)
    requires
        x < y < ten_to(w),
    ensures
        sorts_before(fixed(x, w), fixed(y, w)),
    decreases w,
{
    if w > 0 {
        let v = (w - 1) as nat;
        lemma_fixed_len(x / 10, v);
        lemma_fixed_len(y / 10, v);
        let a = fixed(x, w);
        let b = fixed(y, w);
        if x / 10 < y / 10 {
            lemma_fixed_sorts(x / 10, y / 10, v);
            let c = fixed(x / 10, v);
            let d = fixed(y / 10, v);
            let k = choose|k: int| parts_at(c, d, k);
            assert(parts_at(a, b, k));
        } else {
            assert(x / 10 == y / 10);
            assert(parts_at(a, b, v as int));
        }
    }
}

proof fn lemma_fixed_len(n: nat, w: nat)
    ensures
        fixed(n, w).len() == w,
    decreases w,
{
    if w > 0 {
        lemma_fixed_len(n / 10, (w - 1) as nat);
    }
}

proof fn lemma_sorts_in_front(a: Seq<char>, b: Seq<char>, c: Seq<char>, d: Seq<char>)
    requires
        sorts_before(a, b),
        c.len() == d.len(),
    ensures
        sorts_before(a + c, b + d),
{
    let k = choose|k: int| parts_at(a, b, k);
    assert(parts_at(a + c, b + d, k));
}

proof fn lemma_sorts_behind(a: Seq<char>, c: Seq<char>, d: Seq<char>)
    requires
        sorts_before(c, d),
    ensures
        sorts_before(a + c, a + d),
{
    let k = choose|k: int| parts_at(c, d, k);
    assert(parts_at(a + c, a + d, a.len() + k));
}

/// Whether the fields of a time have the digits that a name gives them.
pub open spec fn ordinary(t: LocalTime) -> bool {
    &&& t.year <= 9999
    &&& t.month <= 99
    &&& t.day <= 99
    &&& t.hour <= 99
    &&& t.minute <= 99
    &&& t.second <= 99
}

/// Whether `t` is before `u`.
pub open spec fn earlier(t: LocalTime, u: LocalTime) -> bool {
    ||| t.year < u.year
    ||| t.year == u.year && t.month < u.month
    ||| t.year == u.year && t.month == u.month && t.day < u.day
    ||| t.year == u.year && t.month == u.month && t.day == u.day && t.hour < u.hour
    ||| t.year == u.year && t.month == u.month && t.day == u.day && t.hour == u.hour && t.minute
        < u.minute
    ||| t.year == u.year && t.month == u.month && t.day == u.day && t.hour == u.hour && t.minute
        == u.minute && t.second < u.second
}

proof fn lemma_ten_to()
    ensures
        ten_to(2) == 100,
        ten_to(4) == 10000,
{
    reveal_with_fuel(ten_to, 5);
}

/// A two-digit field with what follows it.
spec fn field2(n: u16, rest: Seq<char>) -> Seq<char> {
    padded(n as nat, 2) + rest
}

proof fn lemma_field2(n: u16, m: u16, rest: Seq<char>, other: Seq<char>)
    requires
        n <= 99,
        m <= 99,
        rest.len() == other.len(),
        n < m || n == m && sorts_before(rest, other),
    ensures
        sorts_before(field2(n, rest), field2(m, other)),
{
    lemma_ten_to();
    lemma_fixed_is_padded(n as nat, 2);
    lemma_fixed_is_padded(m as nat, 2);
    if n < m {
        lemma_fixed_sorts(n as nat, m as nat, 2);
        lemma_sorts_in_front(padded(n as nat, 2), padded(m as nat, 2), rest, other);
    } else {
        lemma_sorts_behind(padded(n as nat, 2), rest, other);
    }
}

spec fn from_second(t: LocalTime) -> Seq<char> {
    field2(t.second, ".mp4"@)
}

spec fn from_minute(t: LocalTime) -> Seq<char> {
    field2(t.minute, "-"@ + from_second(t))
}

spec fn from_hour(t: LocalTime) -> Seq<char> {
    field2(t.hour, "-"@ + from_minute(t))
}

spec fn from_day(t: LocalTime) -> Seq<char> {
    field2(t.day, "_"@ + from_hour(t))
}

spec fn from_month(t: LocalTime) -> Seq<char> {
    field2(t.month, "-"@ + from_day(t))
}

spec fn from_year(t: LocalTime) -> Seq<char> {
    padded(t.year as nat, 4) + ("-"@ + from_month(t))
}

proof fn lemma_name_parts(t: LocalTime)
    requires
        ordinary(t),
    ensures
        replay_name(t) == "replay_"@ + from_year(t),
        from_second(t).len() == 6,
        from_minute(t).len() == 9,
        from_hour(t).len() == 12,
        from_day(t).len() == 15,
        from_month(t).len() == 18,
        from_year(t).len() == 23,
        replay_name(t).len() == 30,
{
    lemma_ten_to();
    lemma_fixed_is_padded(t.year as nat, 4);
    lemma_fixed_is_padded(t.month as nat, 2);
    lemma_fixed_is_padded(t.day as nat, 2);
    lemma_fixed_is_padded(t.hour as nat, 2);
    lemma_fixed_is_padded(t.minute as nat, 2);
    lemma_fixed_is_padded(t.second as nat, 2);
    reveal_strlit("replay_");
    reveal_strlit("-");
    reveal_strlit("_");
    reveal_strlit(".mp4");
    assert("replay_"@.len() == 7);
    assert("-"@.len() == 1);
    assert("_"@.len() == 1);
    assert(".mp4"@.len() == 4);
    assert(replay_name(t) =~= "replay_"@ + from_year(t));
}

proof fn lemma_earlier_sorts(t: LocalTime, u: LocalTime)
    requires
        ordinary(t),
        ordinary(u),
        earlier(t, u),
    ensures
        sorts_before(replay_name(t), replay_name(u)),
{
    lemma_name_parts(t);
    lemma_name_parts(u);
    lemma_ten_to();
    let dash = "-"@;
    let line = "_"@;
    let same_minute = t.year == u.year && t.month == u.month && t.day == u.day && t.hour == u.hour
        && t.minute == u.minute;
    if same_minute {
        lemma_field2(t.second, u.second, ".mp4"@, ".mp4"@);
        lemma_sorts_behind(dash, from_second(t), from_second(u));
    }
    if t.year == u.year && t.month == u.month && t.day == u.day && t.hour == u.hour {
        lemma_field2(t.minute, u.minute, dash + from_second(t), dash + from_second(u));
        lemma_sorts_behind(dash, from_minute(t), from_minute(u));
    }
    if t.year == u.year && t.month == u.month && t.day == u.day {
        lemma_field2(t.hour, u.hour, dash + from_minute(t), dash + from_minute(u));
        lemma_sorts_behind(line, from_hour(t), from_hour(u));
    }
    if t.year == u.year && t.month == u.month {
        lemma_field2(t.day, u.day, line + from_hour(t), line + from_hour(u));
        lemma_sorts_behind(dash, from_day(t), from_day(u));
    }
    if t.year == u.year {
        lemma_field2(t.month, u.month, dash + from_day(t), dash + from_day(u));
        lemma_sorts_behind(dash, from_month(t), from_month(u));
        lemma_sorts_behind(
            padded(t.year as nat, 4),
            dash + from_month(t),
            dash + from_month(u),
        );
    } else {
        lemma_fixed_is_padded(t.year as nat, 4);
        lemma_fixed_is_padded(u.year as nat, 4);
        lemma_fixed_sorts(t.year as nat, u.year as nat, 4);
        lemma_sorts_in_front(
            padded(t.year as nat, 4),
            padded(u.year as nat, 4),
            dash + from_month(t),
            dash + from_month(u),
        );
    }
    lemma_sorts_behind("replay_"@, from_year(t), from_year(u));
}

/// All clip names have one length.
pub proof fn law_names_have_one_length(t: LocalTime)
    requires
        ordinary(t),
    ensures
        replay_name(t).len() == 30,
{
    lemma_name_parts(t);
}

/// Clips sort by name as they do by time.
pub proof fn law_names_sort_by_time(t: LocalTime, u: LocalTime)
    requires
        ordinary(t),
        ordinary(u),
    ensures
        sorts_before(replay_name(t), replay_name(u)) <==> earlier(t, u),
        replay_name(t) == replay_name(u) <==> t == u,
{
    lemma_sorts_once(replay_name(t), replay_name(u));
    if earlier(t, u) {
        lemma_earlier_sorts(t, u);
    } else if earlier(u, t) {
        lemma_earlier_sorts(u, t);
    }
    if t != u {
        assert(earlier(t, u) || earlier(u, t));
    }
    lemma_sorts_once(replay_name(u), replay_name(u));
    lemma_sorts_once(replay_name(t), replay_name(t));
}

/// Two numbers give two names to try.
pub proof fn law_numbered_names_differ(name: Seq<char>, n: nat, m: nat)
    requires
        n != m,
    ensures
        numbered(name, n) != numbered(name, m),
{
    lemma_decimal_reads_back(n);
    lemma_decimal_reads_back(m);
    let head = stem_of_name(name) + "_"@;
    let tail = "."@ + (match extension_of(name) {
        Some(e) => e,
        None => "mp4"@,
    });
    let a = numbered(name, n);
    let b = numbered(name, m);
    assert(a =~= head + decimal(n) + tail);
    assert(b =~= head + decimal(m) + tail);
    if a == b {
        assert(decimal(n).len() == decimal(m).len());
        assert(a.subrange(head.len() as int, (head.len() + decimal(n).len()) as int) =~= decimal(n));
        assert(b.subrange(head.len() as int, (head.len() + decimal(m).len()) as int) =~= decimal(m));
    }
}

/// A name that holds no `..` and does not begin with a separator is not refused;
/// every other one is.
pub proof fn law_refused_names(name: Seq<char>)
    ensures
        leads_out(name) <==> {
            ||| exists|i: int| 0 <= i && i + 1 < name.len() && #[trigger] name[i] == '.' && name[i + 1] == '.'
            ||| name.len() > 0 && (name[0] == '/' || name[0] == '\\')
        },
{
    reveal_strlit("..");
    reveal_strlit("/");
    reveal_strlit("\\");
    if holds(name, ".."@) {
        let i = choose|i: int| stands_at(name, ".."@, i);
        assert(name.subrange(i, i + 2)[0] == name[i]);
        assert(name.subrange(i, i + 2)[1] == name[i + 1]);
        assert(name[i] == '.' && name[i + 1] == '.');
    }
    if exists|i: int| 0 <= i && i + 1 < name.len() && #[trigger] name[i] == '.' && name[i + 1] == '.' {
        let i = choose|i: int|
            0 <= i && i + 1 < name.len() && #[trigger] name[i] == '.' && name[i + 1] == '.';
        assert(name.subrange(i, i + 2) =~= ".."@);
        assert(stands_at(name, ".."@, i));
    }
    if name.len() > 0 {
        assert(name.take(1)[0] == name[0]);
        assert(name[0] == '/' ==> name.take(1) =~= "/"@);
        assert(name[0] == '\\' ==> name.take(1) =~= "\\"@);
    }
}

/// A name tells its time: the year, the month, the day, the hour, the minute and the
/// second stand at fixed places in it, between `replay_` and `.mp4`.
pub proof fn law_names_tell_the_time(t: LocalTime)
    requires
        ordinary(t),
    ensures
        ({
            let name = replay_name(t);
            &&& name.take(7) == "replay_"@
            &&& unsigned_number(name.subrange(7, 11)) == Some(t.year as nat)
            &&& unsigned_number(name.subrange(12, 14)) == Some(t.month as nat)
            &&& unsigned_number(name.subrange(15, 17)) == Some(t.day as nat)
            &&& unsigned_number(name.subrange(18, 20)) == Some(t.hour as nat)
            &&& unsigned_number(name.subrange(21, 23)) == Some(t.minute as nat)
            &&& unsigned_number(name.subrange(24, 26)) == Some(t.second as nat)
            &&& name[11] == '-' && name[14] == '-' && name[17] == '_'
            &&& name[20] == '-' && name[23] == '-'
            &&& name.skip(26) == ".mp4"@
        }),
{
    lemma_name_parts(t);
    lemma_ten_to();
    lemma_fixed_is_padded(t.year as nat, 4);
    lemma_fixed_is_padded(t.month as nat, 2);
    lemma_fixed_is_padded(t.day as nat, 2);
    lemma_fixed_is_padded(t.hour as nat, 2);
    lemma_fixed_is_padded(t.minute as nat, 2);
    lemma_fixed_is_padded(t.second as nat, 2);
    law_padded_reads_back(t.year as nat, 4);
    law_padded_reads_back(t.month as nat, 2);
    law_padded_reads_back(t.day as nat, 2);
    law_padded_reads_back(t.hour as nat, 2);
    law_padded_reads_back(t.minute as nat, 2);
    law_padded_reads_back(t.second as nat, 2);
    reveal_strlit("replay_");
    reveal_strlit("-");
    reveal_strlit("_");
    reveal_strlit(".mp4");
    let name = replay_name(t);
    assert(name.take(7) =~= "replay_"@);
    assert(name.subrange(7, 11) =~= padded(t.year as nat, 4));
    assert(name.subrange(12, 14) =~= padded(t.month as nat, 2));
    assert(name.subrange(15, 17) =~= padded(t.day as nat, 2));
    assert(name.subrange(18, 20) =~= padded(t.hour as nat, 2));
    assert(name.subrange(21, 23) =~= padded(t.minute as nat, 2));
    assert(name.subrange(24, 26) =~= padded(t.second as nat, 2));
    assert(name.skip(26) =~= ".mp4"@);
}

/// A name parts at its last dot, unless that is its first character: the number of a
/// taken name goes behind the stem, and the thumbnail has the stem. A name without
/// such a dot is all stem, and its numbered names end in `.mp4`.
pub proof fn law_names_part_at_the_last_dot(stem: Seq<char>, ext: Seq<char>, n: nat)
    requires
        forall|i: int| 0 <= i < ext.len() ==> ext[i] != '.',
        stem.len() > 0,
    ensures
        stem + "."@ + ext != ".."@ ==> {
            &&& stem_of_name(stem + "."@ + ext) == stem
            &&& extension_of(stem + "."@ + ext) == Some(ext)
            &&& numbered(stem + "."@ + ext, n) == stem + "_"@ + decimal(n) + "."@ + ext
            &&& thumbnail_name(stem + "."@ + ext) == "thumb_"@ + stem + ".jpg"@
        },
        stem_of_name(ext) == ext,
        extension_of(ext) is None,
        numbered(ext, n) == ext + "_"@ + decimal(n) + ".mp4"@,
        thumbnail_name(ext) == "thumb_"@ + ext + ".jpg"@,
{
    reveal_strlit(".");
    reveal_strlit("mp4");
    reveal_strlit(".mp4");
    let name = stem + "."@ + ext;
    if name != ".."@ {
        let k = stem.len() as int;
        assert(parting_dot(name, k)) by {
            assert forall|j: int| k < j < name.len() implies name[j] != '.' by {
                assert(name[j] == ext[j - k - 1]);
            }
        }
        let c = choose|i: int| parting_dot(name, i);
        assert(c == k);
        assert(name.take(k) =~= stem);
        assert(name.skip(k + 1) =~= ext);
    }
    assert forall|i: int| !parting_dot(ext, i) by {}
    assert(numbered(ext, n) =~= ext + "_"@ + decimal(n) + ".mp4"@) by {
        assert("."@ + "mp4"@ =~= ".mp4"@);
        assert(ext + "_"@ + decimal(n) + "."@ + "mp4"@ =~= ext + "_"@ + decimal(n) + ("."@
            + "mp4"@));
    }
}

} // verus!
