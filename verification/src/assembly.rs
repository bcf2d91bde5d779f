//! AssemblyAI transcripts: utterances, diarized formatting and the completed-transcript rule.

use vstd::prelude::*;
use vstd::string::*;
use crate::language::{
    invalid_language_code_message, normalize_assembly_ai_language_code, normalized_language_code,
    unicode_lowercase,
};
use crate::session::{StartSessionOptions, TranscriptionSettings, is_http_base_url};
use crate::text::{
    is_prefix, lemma_position_bound, lemma_position_in_prefix, lemma_position_push, position_of,
    append_decimal, decimal, is_blank_str, push_char, str_equal, str_starts_with, trim, trim_str,
    u64_to_decimal,
};

verus! {

/// One utterance of a diarized AssemblyAI transcript.
pub struct AssemblyUtterance {
    pub speaker: Option<String>,
    pub text: Option<String>,
    pub start: Option<i64>,
    pub end: Option<i64>,
}

/// The mathematical content of an utterance.
pub struct UtteranceView {
    pub speaker: Option<Seq<char>>,
    pub text: Option<Seq<char>>,
    pub start: Option<i64>,
    pub end: Option<i64>,
}

/// The characters of an optional string.
pub open spec fn opt_chars(o: Option<String>) -> Option<Seq<char>> {
    match o {
        Some(s) => Some(s@),
        None => None,
    }
}

impl View for AssemblyUtterance {
    type V = UtteranceView;

    open spec fn view(&self) -> UtteranceView {
        UtteranceView {
            speaker: opt_chars(self.speaker),
            text: opt_chars(self.text),
            start: self.start,
            end: self.end,
        }
    }
}

/// The views of a sequence of utterances.
pub open spec fn utterance_views(us: Seq<AssemblyUtterance>) -> Seq<UtteranceView> {
    us.map_values(|u: AssemblyUtterance| u@)
}

/// The utterance carries text that is not blank.
pub open spec fn has_text(u: UtteranceView) -> bool {
    u.text matches Some(t) && trim(t).len() > 0
}

/// The utterances with non-blank text, in their original order.
pub open spec fn with_text(us: Seq<UtteranceView>) -> Seq<UtteranceView>
    decreases us.len(),
{
    if us.len() == 0 {
        us
    } else {
        let prev = with_text(us.drop_last());
        if has_text(us.last()) {
            prev.push(us.last())
        } else {
            prev
        }
    }
}

/// The ordering key: start, then end, a missing time counting as `i64::MAX`.
pub open spec fn time_key(u: UtteranceView) -> (i64, i64) {
    (
        match u.start {
            Some(s) => s,
            None => i64::MAX,
        },
        match u.end {
            Some(e) => e,
            None => i64::MAX,
        },
    )
}

/// `a` comes strictly before `b` in time order.
pub open spec fn starts_before(a: UtteranceView, b: UtteranceView) -> bool {
    let ka = time_key(a);
    let kb = time_key(b);
    ka.0 < kb.0 || (ka.0 == kb.0 && ka.1 < kb.1)
}

/// `u` placed into the time-ordered `sorted`, after every utterance that is not later.
pub open spec fn insert_by_time(sorted: Seq<UtteranceView>, u: UtteranceView) -> Seq<UtteranceView>
    decreases sorted.len(),
{
    if sorted.len() == 0 {
        seq![u]
    } else if starts_before(u, sorted.last()) {
        insert_by_time(sorted.drop_last(), u).push(sorted.last())
    } else {
        sorted.push(u)
    }
}

/// The stable sort of `us` by `time_key`: equal keys keep their original order.
pub open spec fn sort_by_time(us: Seq<UtteranceView>) -> Seq<UtteranceView>
    decreases us.len(),
{
    if us.len() == 0 {
        us
    } else {
        insert_by_time(sort_by_time(us.drop_last()), us.last())
    }
}

/// Where `insert_by_time` puts `u`.
pub open spec fn insert_pos(sorted: Seq<UtteranceView>, u: UtteranceView) -> int
    decreases sorted.len(),
{
    if sorted.len() == 0 {
        0
    } else if starts_before(u, sorted.last()) {
        insert_pos(sorted.drop_last(), u)
    } else {
        sorted.len() as int
    }
}

proof fn lemma_insert_by_time(sorted: Seq<UtteranceView>, u: UtteranceView)
    ensures
        0 <= insert_pos(sorted, u) <= sorted.len(),
        insert_by_time(sorted, u) == sorted.insert(insert_pos(sorted, u), u),
    decreases sorted.len(),
{
    if sorted.len() == 0 {
        assert(seq![u] =~= sorted.insert(0, u));
    } else if starts_before(u, sorted.last()) {
        let d = sorted.drop_last();
        lemma_insert_by_time(d, u);
        assert(d.insert(insert_pos(d, u), u).push(sorted.last()) =~= sorted.insert(
            insert_pos(d, u),
            u,
        ));
    } else {
        assert(sorted.push(u) =~= sorted.insert(sorted.len() as int, u));
    }
}

/// No utterance comes before an earlier one.
pub open spec fn time_sorted(s: Seq<UtteranceView>) -> bool {
    forall|i: int, j: int| 0 <= i < j < s.len() ==> !starts_before(#[trigger] s[j], #[trigger] s[i])
}

proof fn lemma_insert_pos_splits(s: Seq<UtteranceView>, u: UtteranceView)
    requires
        time_sorted(s),
    ensures
        0 <= insert_pos(s, u) <= s.len(),
        forall|i: int| 0 <= i < insert_pos(s, u) ==> !starts_before(u, #[trigger] s[i]),
        forall|i: int| insert_pos(s, u) <= i < s.len() ==> starts_before(u, #[trigger] s[i]),
    decreases s.len(),
{
    if s.len() > 0 {
        let d = s.drop_last();
        assert(time_sorted(d)) by {
            assert forall|i: int, j: int| 0 <= i < j < d.len() implies !starts_before(
                #[trigger] d[j],
                #[trigger] d[i],
            ) by {
                assert(d[i] == s[i] && d[j] == s[j]);
            }
        }
        lemma_insert_pos_splits(d, u);
        if starts_before(u, s.last()) {
            assert forall|i: int| insert_pos(s, u) <= i < s.len() implies starts_before(
                u,
                #[trigger] s[i],
            ) by {
                if i < s.len() - 1 {
                    assert(s[i] == d[i]);
                }
            }
            assert forall|i: int| 0 <= i < insert_pos(s, u) implies !starts_before(
                u,
                #[trigger] s[i],
            ) by {
                assert(s[i] == d[i]);
            }
        } else {
            assert forall|i: int| 0 <= i < s.len() implies !starts_before(u, #[trigger] s[i]) by {
                if i < s.len() - 1 {
                    assert(!starts_before(s[s.len() - 1], s[i]));
                }
            }
        }
    }
}

proof fn lemma_insert_keeps_order(s: Seq<UtteranceView>, u: UtteranceView)
    requires
        time_sorted(s),
    ensures
        time_sorted(insert_by_time(s, u)),
        insert_by_time(s, u).to_multiset() == s.to_multiset().insert(u),
{
    broadcast use vstd::seq_lib::group_to_multiset_ensures;
    lemma_insert_by_time(s, u);
    lemma_insert_pos_splits(s, u);
    let p = insert_pos(s, u);
    let t = s.insert(p, u);
    assert forall|i: int, j: int| 0 <= i < j < t.len() implies !starts_before(
        #[trigger] t[j],
        #[trigger] t[i],
    ) by {
        if j < p {
            assert(t[i] == s[i] && t[j] == s[j]);
        } else if j == p {
            assert(t[i] == s[i]);
        } else if i < p {
            assert(t[i] == s[i] && t[j] == s[j - 1]);
            assert(!starts_before(s[j - 1], s[i]));
        } else if i == p {
            assert(t[j] == s[j - 1]);
        } else {
            assert(t[i] == s[i - 1] && t[j] == s[j - 1]);
        }
    }
}

/// The transcript keeps time order: sorting by time gives an ordered sequence holding
/// exactly the same utterances.
pub proof fn lemma_sort_by_time_orders(us: Seq<UtteranceView>)
    ensures
        time_sorted(sort_by_time(us)),
        sort_by_time(us).to_multiset() == us.to_multiset(),
        sort_by_time(us).len() == us.len(),
    decreases us.len(),
{
    broadcast use vstd::seq_lib::group_to_multiset_ensures;
    if us.len() > 0 {
        lemma_sort_by_time_orders(us.drop_last());
        lemma_insert_keeps_order(sort_by_time(us.drop_last()), us.last());
        lemma_insert_by_time(sort_by_time(us.drop_last()), us.last());
        assert(us.drop_last().push(us.last()) =~= us);
    }
}

/// Blank utterances are left out and every utterance with text is kept, in order.
pub proof fn lemma_with_text_keeps_exactly_text(us: Seq<UtteranceView>)
    ensures
        forall|i: int| 0 <= i < with_text(us).len() ==> has_text(#[trigger] with_text(us)[i]),
        forall|i: int| 0 <= i < us.len() && has_text(#[trigger] us[i]) ==> with_text(us).contains(us[i]),
        with_text(us).len() <= us.len(),
    decreases us.len(),
{
    if us.len() > 0 {
        let d = us.drop_last();
        lemma_with_text_keeps_exactly_text(d);
        let w = with_text(d);
        assert forall|i: int| 0 <= i < us.len() && has_text(#[trigger] us[i]) implies with_text(
            us,
        ).contains(us[i]) by {
            if i < us.len() - 1 {
                assert(d[i] == us[i]);
                let k = choose|k: int| 0 <= k < w.len() && w[k] == d[i];
                if has_text(us.last()) {
                    assert(w.push(us.last())[k] == w[k]);
                }
            } else {
                assert(w.push(us.last())[w.len() as int] == us.last());
            }
        }
        if has_text(us.last()) {
            assert forall|i: int| 0 <= i < with_text(us).len() implies has_text(
                #[trigger] with_text(us)[i],
            ) by {
                if i < w.len() {
                    assert(w.push(us.last())[i] == w[i]);
                }
            }
        }
    }
}

/// The speaker's key: the trimmed speaker name, or `unknown` where it is missing or blank.
pub open spec fn speaker_key(u: UtteranceView) -> Seq<char> {
    match u.speaker {
        Some(s) => if trim(s).len() > 0 {
            trim(s)
        } else {
            "unknown"@
        },
        None => "unknown"@,
    }
}

/// The speakers of `us`, each once, in the order in which they first speak.
pub open spec fn speakers_seen(us: Seq<UtteranceView>) -> Seq<Seq<char>>
    decreases us.len(),
{
    if us.len() == 0 {
        seq![]
    } else {
        let prev = speakers_seen(us.drop_last());
        let k = speaker_key(us.last());
        if position_of(prev, k) < prev.len() {
            prev
        } else {
            prev.push(k)
        }
    }
}

/// The label of speaker number `n`: `A` to `Z` for the first 26, then `n + 1` in decimal.
pub open spec fn speaker_label(n: nat) -> Seq<char> {
    if n < 26 {
        seq![(('A' as u32) + n) as char]
    } else {
        decimal(n + 1)
    }
}

/// One line of the diarized transcript.
pub open spec fn speaker_line(n: nat, text: Seq<char>) -> Seq<char> {
    "Speaker "@ + speaker_label(n) + ": "@ + text
}

/// The trimmed text of an utterance, empty where it has none.
pub open spec fn utterance_text(u: UtteranceView) -> Seq<char> {
    match u.text {
        Some(t) => trim(t),
        None => seq![],
    }
}

/// The lines for `us`, taken in the given order.
pub open spec fn diarized_lines(us: Seq<UtteranceView>) -> Seq<Seq<char>>
    decreases us.len(),
{
    if us.len() == 0 {
        seq![]
    } else {
        let prev = us.drop_last();
        diarized_lines(prev).push(
            speaker_line(position_of(speakers_seen(prev), speaker_key(us.last())), utterance_text(us.last())),
        )
    }
}

/// `lines` joined by newlines.
pub open spec fn join_lines(lines: Seq<Seq<char>>) -> Seq<char>
    decreases lines.len(),
{
    if lines.len() == 0 {
        seq![]
    } else if lines.len() == 1 {
        lines[0]
    } else {
        join_lines(lines.drop_last()) + "\n"@ + lines.last()
    }
}

/// The diarized transcript of `us`: utterances with text, in time order, one labelled line each.
pub open spec fn diarized_transcript(us: Seq<UtteranceView>) -> Seq<char> {
    join_lines(diarized_lines(sort_by_time(with_text(us))))
}

/// The utterances picked by `order`, in that order.
pub open spec fn picked(order: Seq<usize>, us: Seq<AssemblyUtterance>) -> Seq<UtteranceView> {
    order.map_values(|i: usize| us[i as int]@)
}

fn utterance_has_text(u: &AssemblyUtterance) -> (r: bool)
    ensures
        r == has_text(u@),
{
    match &u.text {
        Some(t) => !is_blank_str(t.as_str()),
        None => false,
    }
}

fn time_key_of(u: &AssemblyUtterance) -> (k: (i64, i64))
    ensures
        k == time_key(u@),
{
    let s = match u.start {
        Some(s) => s,
        None => i64::MAX,
    };
    let e = match u.end {
        Some(e) => e,
        None => i64::MAX,
    };
    (s, e)
}

/// The indices of the utterances with text, stably sorted by time.
fn time_order(utterances: &[AssemblyUtterance]) -> (order: Vec<usize>)
    ensures
        forall|k: int| 0 <= k < order.len() ==> order@[k] < utterances.len(),
        picked(order@, utterances@) == sort_by_time(with_text(utterance_views(utterances@))),
{
    let n = utterances.len();
    let ghost vs = utterance_views(utterances@);
    let mut order: Vec<usize> = Vec::new();
    let mut i: usize = 0;
    assert(picked(order@, utterances@) =~= seq![]);
    assert(vs.take(0) =~= seq![]);
    while i < n
        invariant
            i <= n == utterances.len(),
            vs == utterance_views(utterances@),
            forall|k: int| 0 <= k < order.len() ==> order@[k] < n,
            picked(order@, utterances@) == sort_by_time(with_text(vs.take(i as int))),
        decreases n - i,
    {
        let ghost u = vs[i as int];
        assert(vs.take(i + 1).drop_last() =~= vs.take(i as int));
        assert(vs.take(i + 1).last() == u);
        if utterance_has_text(&utterances[i]) {
            let ghost s = picked(order@, utterances@);
            let key = time_key_of(&utterances[i]);
            let mut p: usize = order.len();
            assert(s.take(p as int) =~= s);
            loop
                invariant
                    p <= order.len(),
                    s == picked(order@, utterances@),
                    key == time_key(u),
                    u == vs[i as int],
                    vs == utterance_views(utterances@),
                    forall|k: int| 0 <= k < order.len() ==> order@[k] < n,
                    n == utterances.len(),
                    insert_pos(s, u) == insert_pos(s.take(p as int), u),
                ensures
                    p == 0 || !starts_before(u, s[p - 1]),
                decreases p,
            {
                if p == 0 {
                    break;
                }
                let other = time_key_of(&utterances[order[p - 1]]);
                if !(key.0 < other.0 || (key.0 == other.0 && key.1 < other.1)) {
                    break;
                }
                assert(s.take(p as int).drop_last() =~= s.take(p - 1));
                assert(s.take(p as int).last() == s[p - 1]);
                p = p - 1;
            }
            proof {
                if p > 0 {
                    assert(s.take(p as int).last() == s[p - 1]);
                }
                assert(insert_pos(s.take(p as int), u) == p);
                lemma_insert_by_time(s, u);
            }
            order.insert(p, i);
            proof {
                assert(picked(order@, utterances@) =~= s.insert(p as int, u));
                let w = with_text(vs.take(i as int));
                assert(w.push(u).drop_last() =~= w);
            }
        }
        i = i + 1;
    }
    assert(vs.take(n as int) =~= vs);
    order
}

fn speaker_key_of(u: &AssemblyUtterance) -> (r: String)
    ensures
        r@ == speaker_key(u@),
{
    match &u.speaker {
        Some(name) => {
            let t = trim_str(name.as_str());
            if t.as_str().is_empty() {
                String::from_str("unknown")
            } else {
                t
            }
        },
        None => String::from_str("unknown"),
    }
}

fn utterance_text_of(u: &AssemblyUtterance) -> (r: String)
    ensures
        r@ == utterance_text(u@),
{
    match &u.text {
        Some(t) => trim_str(t.as_str()),
        None => String::new(),
    }
}

/// The views of a list of strings.
pub open spec fn string_views(v: Seq<String>) -> Seq<Seq<char>> {
    v.map_values(|s: String| s@)
}

fn find_speaker(seen: &Vec<String>, key: &String) -> (r: usize)
    ensures
        r == position_of(string_views(seen@), key@),
        r <= seen.len(),
{
    let ghost sv = string_views(seen@);
    let mut j: usize = 0;
    assert(sv.skip(0) =~= sv);
    while j < seen.len()
        invariant
            j <= seen.len(),
            sv == string_views(seen@),
            position_of(sv, key@) == j + position_of(sv.skip(j as int), key@),
        decreases seen.len() - j,
    {
        if seen[j] == *key {
            assert(sv.skip(j as int)[0] == sv[j as int]);
            return j;
        }
        assert(sv.skip(j as int)[0] == sv[j as int]);
        assert(sv.skip(j as int).drop_first() =~= sv.skip(j + 1));
        j = j + 1;
    }
    assert(sv.skip(j as int) =~= seq![]);
    j
}

proof fn lemma_speakers_grow(us: Seq<UtteranceView>, m: int, n: int)
    requires
        0 <= m <= n <= us.len(),
    ensures
        is_prefix(speakers_seen(us.take(m)), speakers_seen(us.take(n))),
    decreases n - m,
{
    let a = speakers_seen(us.take(m));
    if m == n {
        assert(a.take(a.len() as int) =~= a);
    } else {
        lemma_speakers_grow(us, m, n - 1);
        assert(us.take(n).drop_last() =~= us.take(n - 1));
        let b = speakers_seen(us.take(n - 1));
        let c = speakers_seen(us.take(n));
        assert(c.take(a.len() as int) =~= b.take(a.len() as int));
    }
}

/// A speaker keeps one label: two utterances of the same speaker get the same number,
/// the one given where that speaker first spoke.
pub proof fn lemma_speaker_label_is_stable(us: Seq<UtteranceView>, i: int, j: int)
    requires
        0 <= i < j < us.len(),
        speaker_key(us[i]) == speaker_key(us[j]),
    ensures
        position_of(speakers_seen(us.take(j)), speaker_key(us[j])) == position_of(
            speakers_seen(us.take(i)),
            speaker_key(us[i]),
        ),
{
    let k = speaker_key(us[i]);
    let si = speakers_seen(us.take(i));
    let si1 = speakers_seen(us.take(i + 1));
    assert(us.take(i + 1).drop_last() =~= us.take(i));
    assert(us.take(i + 1).last() == us[i]);
    lemma_position_bound(si, k);
    if position_of(si, k) < si.len() {
        assert(si1 == si);
    } else {
        lemma_position_push(si, k);
        assert(si1 == si.push(k));
    }
    lemma_position_bound(si1, k);
    lemma_speakers_grow(us, i + 1, j);
    lemma_position_in_prefix(si1, speakers_seen(us.take(j)), k);
}

/// There is one line per utterance.
pub proof fn lemma_one_line_per_utterance(us: Seq<UtteranceView>)
    ensures
        diarized_lines(us).len() == us.len(),
    decreases us.len(),
{
    if us.len() > 0 {
        lemma_one_line_per_utterance(us.drop_last());
    }
}

proof fn lemma_first_line(us: Seq<UtteranceView>)
    requires
        us.len() > 0,
    ensures
        diarized_lines(us).len() > 0,
        diarized_lines(us)[0] == speaker_line(0, utterance_text(us[0])),
    decreases us.len(),
{
    lemma_one_line_per_utterance(us);
    if us.len() > 1 {
        lemma_first_line(us.drop_last());
    }
}

proof fn lemma_join_starts_with_first(lines: Seq<Seq<char>>)
    requires
        lines.len() > 0,
    ensures
        lines[0].len() <= join_lines(lines).len(),
        join_lines(lines).take(lines[0].len() as int) == lines[0],
    decreases lines.len(),
{
    if lines.len() > 1 {
        let d = lines.drop_last();
        lemma_join_starts_with_first(d);
        assert(d[0] == lines[0]);
        let j = join_lines(d);
        assert((j + "\n"@ + lines.last()).take(lines[0].len() as int) =~= j.take(lines[0].len() as int));
    } else {
        assert(join_lines(lines).take(lines[0].len() as int) =~= lines[0]);
    }
}

/// The first speaker of a transcript with any text is speaker A, and the transcript
/// starts with that speaker's first line.
pub proof fn lemma_transcript_starts_with_speaker_a(us: Seq<UtteranceView>)
    requires
        with_text(us).len() > 0,
    ensures
        ({
            let first = sort_by_time(with_text(us))[0];
            let line = speaker_line(0, utterance_text(first));
            &&& speaker_label(0) == seq!['A']
            &&& diarized_transcript(us).take(line.len() as int) == line
        }),
{
    lemma_sort_by_time_orders(with_text(us));
    let s = sort_by_time(with_text(us));
    lemma_first_line(s);
    lemma_join_starts_with_first(diarized_lines(s));
}

/// Formats diarized utterances as `Speaker A: text` lines: blank utterances are left out,
/// the rest are ordered by start then end time (stably), and speakers are lettered in
/// the order in which they first speak.
pub fn format_diarized_transcript(utterances: &[AssemblyUtterance]) -> (r: String)
    ensures
        r@ == diarized_transcript(utterance_views(utterances@)),
{
    let order = time_order(utterances);
    let ghost s = picked(order@, utterances@);
    let mut seen: Vec<String> = Vec::new();
    let mut out = String::new();
    let mut t: usize = 0;
    assert(s.take(0) =~= seq![]);
    assert(string_views(seen@) =~= seq![]);
    while t < order.len()
        invariant
            t <= order.len(),
            s == picked(order@, utterances@),
            forall|k: int| 0 <= k < order.len() ==> order@[k] < utterances.len(),
            string_views(seen@) == speakers_seen(s.take(t as int)),
            seen.len() <= t,
            diarized_lines(s.take(t as int)).len() == t,
            out@ == join_lines(diarized_lines(s.take(t as int))),
        decreases order.len() - t,
    {
        let u = &utterances[order[t]];
        let ghost uv = s[t as int];
        assert(u@ == uv);
        let ghost prev = s.take(t as int);
        assert(s.take(t + 1).drop_last() =~= prev);
        assert(s.take(t + 1).last() == uv);
        let text = utterance_text_of(u);
        let key = speaker_key_of(u);
        let pos = find_speaker(&seen, &key);
        let ghost sv = string_views(seen@);
        proof {
            lemma_position_bound(sv, key@);
        }
        if pos == seen.len() {
            seen.push(key);
            proof {
                assert(string_views(seen@) =~= sv.push(key@));
            }
        }
        if t > 0 {
            out.append("\n");
        }
        out.append("Speaker ");
        if pos < 26 {
            let b: u8 = 65u8 + (pos as u8);
            let c: char = b as char;
            assert(seq![c] == speaker_label(pos as nat));
            push_char(&mut out, c);
        } else {
            append_decimal(&mut out, (pos + 1) as u64);
        }
        out.append(": ");
        out.append(text.as_str());
        proof {
            let lines = diarized_lines(prev);
            let line = speaker_line(pos as nat, text@);
            assert(diarized_lines(s.take(t + 1)) == lines.push(line));
            assert(lines.push(line).drop_last() =~= lines);
            if t == 0 {
                assert(lines.push(line)[0] == line);
            }
        }
        t = t + 1;
    }
    assert(s.take(order.len() as int) =~= s);
    out
}

/// Speaker-diarization settings of one transcription request.
#[derive(Clone, Copy, Debug)]
pub struct DiarizationConfig {
    pub enabled: bool,
    pub speakers_expected: Option<u8>,
}

/// Diarization follows the session's options; without options, or with diarization
/// off, it is disabled and no speaker count is sent.
pub open spec fn diarization_of(options: Option<StartSessionOptions>) -> DiarizationConfig {
    match options {
        Some(o) => if o.enable_diarization {
            DiarizationConfig { enabled: true, speakers_expected: Some(o.speakers_expected) }
        } else {
            DiarizationConfig { enabled: false, speakers_expected: None }
        },
        None => DiarizationConfig { enabled: false, speakers_expected: None },
    }
}

/// The diarization settings that a session's options call for.
pub fn diarization_config_from_session_options(session_options: Option<&StartSessionOptions>) -> (r:
    DiarizationConfig)
    ensures
        r == diarization_of(
            match session_options {
                Some(o) => Some(*o),
                None => None,
            },
        ),
{
    match session_options {
        Some(options) => {
            if options.enable_diarization {
                DiarizationConfig { enabled: true, speakers_expected: Some(options.speakers_expected) }
            } else {
                DiarizationConfig { enabled: false, speakers_expected: None }
            }
        },
        None => DiarizationConfig { enabled: false, speakers_expected: None },
    }
}

#[verifier::external_type_specification]
#[verifier::external_body]
pub struct ExJsonValue(serde_json::Value);

#[verifier::external_type_specification]
#[verifier::external_body]
#[verifier::reject_recursive_types(K)]
#[verifier::reject_recursive_types(V)]
pub struct ExJsonMap<K, V>(serde_json::Map<K, V>);

/// A JSON object, as `serde_json` holds one.
pub type JsonObject = serde_json::Map<String, serde_json::Value>;

/// A JSON field value of a transcript request.
pub enum JsonValue {
    Text(String),
    Flag(bool),
    Number(u64),
}

/// The mathematical content of a JSON field value.
pub enum JsonField {
    Text(Seq<char>),
    Flag(bool),
    Number(u64),
}

impl View for JsonValue {
    type V = JsonField;

    open spec fn view(&self) -> JsonField {
        match self {
            JsonValue::Text(s) => JsonField::Text(s@),
            JsonValue::Flag(b) => JsonField::Flag(*b),
            JsonValue::Number(n) => JsonField::Number(*n),
        }
    }
}

/// The fields of a JSON object, as its keys and values.
pub uninterp spec fn json_object_fields(m: JsonObject) -> Map<
    Seq<char>,
    JsonField,
>;

/// An object without fields.
pub open spec fn no_fields() -> Map<Seq<char>, JsonField> {
    Map::empty()
}

/// Calls `serde_json::Map::new`, which makes an object with no fields.
#[verifier::external_body]
fn json_map_new() -> (m: JsonObject)
    ensures
        json_object_fields(m) == no_fields(),
{
    serde_json::Map::new()
}

/// Calls `serde_json::Map::insert`, which adds the field or replaces the value of an existing
/// key; the value is converted to the JSON string, boolean or number it stands for.
#[verifier::external_body]
fn json_map_insert(m: &mut JsonObject, key: &str, value: JsonValue)
    ensures
        json_object_fields(*final(m)) == json_object_fields(*old(m)).insert(key@, value@),
{
    let v = match value {
        JsonValue::Text(s) => serde_json::Value::String(s),
        JsonValue::Flag(b) => serde_json::Value::Bool(b),
        JsonValue::Number(n) => serde_json::Value::Number(n.into()),
    };
    m.insert(key.to_string(), v);
}

/// The fields of a transcript request: the audio URL; language detection for `auto`,
/// otherwise the language code; and, with diarization on, speaker labels and the
/// expected speaker count where one is set.
pub open spec fn transcript_payload_fields(
    upload_url: Seq<char>,
    language_code: Seq<char>,
    diarization: DiarizationConfig,
) -> Map<Seq<char>, JsonField> {
    let base = Map::<Seq<char>, JsonField>::empty().insert("audio_url"@, JsonField::Text(upload_url));
    let with_language = if language_code == "auto"@ {
        base.insert("language_detection"@, JsonField::Flag(true))
    } else {
        base.insert("language_code"@, JsonField::Text(language_code))
    };
    if diarization.enabled {
        let labelled = with_language.insert("speaker_labels"@, JsonField::Flag(true));
        match diarization.speakers_expected {
            Some(n) => labelled.insert("speakers_expected"@, JsonField::Number(n as u64)),
            None => labelled,
        }
    } else {
        with_language
    }
}

/// The request always carries the audio URL; its language fields depend on the code alone:
/// `auto` asks for detection and sends no code, any other code is sent as given and no
/// detection is asked for, whether diarization is on or off. Without diarization no
/// speaker field is sent; with it, speaker labels are asked for and the expected count is
/// sent exactly when one is set.
pub proof fn lemma_payload_fields(upload_url: Seq<char>, language_code: Seq<char>, diarization: DiarizationConfig)
    ensures
        ({
            let f = transcript_payload_fields(upload_url, language_code, diarization);
            &&& f.dom().contains("audio_url"@) && f["audio_url"@] == JsonField::Text(upload_url)
            &&& language_code == "auto"@ ==> f.dom().contains("language_detection"@)
                && f["language_detection"@] == JsonField::Flag(true) && !f.dom().contains(
                "language_code"@,
            )
            &&& language_code != "auto"@ ==> f.dom().contains("language_code"@)
                && f["language_code"@] == JsonField::Text(language_code) && !f.dom().contains(
                "language_detection"@,
            )
            &&& !diarization.enabled ==> !f.dom().contains("speaker_labels"@) && !f.dom().contains(
                "speakers_expected"@,
            )
            &&& diarization.enabled ==> f.dom().contains("speaker_labels"@)
                && f["speaker_labels"@] == JsonField::Flag(true)
            &&& diarization.enabled && diarization.speakers_expected is Some ==> f.dom().contains(
                "speakers_expected"@,
            ) && f["speakers_expected"@] == JsonField::Number(
                diarization.speakers_expected->Some_0 as u64,
            )
            &&& diarization.speakers_expected is None ==> !f.dom().contains("speakers_expected"@)
            &&& forall|k: Seq<char>| #[trigger] f.dom().contains(k) ==> k == "audio_url"@ || k
                == "language_detection"@ || k == "language_code"@ || k == "speaker_labels"@ || k
                == "speakers_expected"@
        }),
{
    reveal_strlit("audio_url");
    reveal_strlit("language_detection");
    reveal_strlit("language_code");
    reveal_strlit("speaker_labels");
    reveal_strlit("speakers_expected");
    reveal_strlit("auto");
    assert("audio_url"@.len() == 9 && "language_detection"@.len() == 18
        && "language_code"@.len() == 13 && "speaker_labels"@.len() == 14
        && "speakers_expected"@.len() == 17);
    assert("audio_url"@ != "language_detection"@);
    assert("audio_url"@ != "language_code"@);
    assert("audio_url"@ != "speaker_labels"@);
    assert("audio_url"@ != "speakers_expected"@);
    assert("language_detection"@ != "language_code"@);
    assert("language_detection"@ != "speaker_labels"@);
    assert("language_detection"@ != "speakers_expected"@);
    assert("language_code"@ != "speaker_labels"@);
    assert("language_code"@ != "speakers_expected"@);
    assert("speaker_labels"@ != "speakers_expected"@);
}

/// The language fields of two requests that differ only in diarization are the same.
pub proof fn lemma_language_independent_of_diarization(
    upload_url: Seq<char>,
    language_code: Seq<char>,
    d1: DiarizationConfig,
    d2: DiarizationConfig,
)
    ensures
        ({
            let f1 = transcript_payload_fields(upload_url, language_code, d1);
            let f2 = transcript_payload_fields(upload_url, language_code, d2);
            &&& f1.dom().contains("language_code"@) == f2.dom().contains("language_code"@)
            &&& f1.dom().contains("language_detection"@) == f2.dom().contains(
                "language_detection"@,
            )
            &&& f1.dom().contains("language_code"@) ==> f1["language_code"@] == f2["language_code"@]
        }),
{
    lemma_payload_fields(upload_url, language_code, d1);
    lemma_payload_fields(upload_url, language_code, d2);
}

/// The JSON body of an AssemblyAI transcript request.
pub fn build_assembly_transcript_payload(
    upload_url: &str,
    normalized_language_code: &str,
    diarization: &DiarizationConfig,
) -> (r: JsonObject)
    ensures
        json_object_fields(r) == transcript_payload_fields(upload_url@, normalized_language_code@, *diarization),
{
    let mut payload = json_map_new();
    json_map_insert(&mut payload, "audio_url", JsonValue::Text(String::from_str(upload_url)));
    if str_equal(normalized_language_code, "auto") {
        json_map_insert(&mut payload, "language_detection", JsonValue::Flag(true));
    } else {
        json_map_insert(
            &mut payload,
            "language_code",
            JsonValue::Text(String::from_str(normalized_language_code)),
        );
    }
    if diarization.enabled {
        json_map_insert(&mut payload, "speaker_labels", JsonValue::Flag(true));
        match diarization.speakers_expected {
            Some(n) => {
                json_map_insert(&mut payload, "speakers_expected", JsonValue::Number(n as u64));
            },
            None => {},
        }
    }
    payload
}

/// The body of a transcript request for `language_code` as the settings hold it: the
/// trimmed code is normalised first, and an invalid one is refused with its message.
pub fn transcript_request_payload(
    upload_url: &str,
    language_code: &str,
    diarization: &DiarizationConfig,
) -> (r: Result<JsonObject, String>)
    ensures
        match r {
            Ok(p) => normalized_language_code(unicode_lowercase(trim(language_code@))) matches Some(
                code,
            ) && json_object_fields(p) == transcript_payload_fields(upload_url@, code, *diarization),
            Err(e) => normalized_language_code(unicode_lowercase(trim(language_code@)))
                is None && e@ == invalid_language_code_message(trim(language_code@)),
        },
{
    let raw = trim_str(language_code);
    proof {
        crate::text::lemma_trim_idempotent(language_code@);
    }
    match normalize_assembly_ai_language_code(raw.as_str()) {
        Ok(code) => Ok(build_assembly_transcript_payload(upload_url, code.as_str(), diarization)),
        Err(e) => Err(e),
    }
}

/// A transcript as AssemblyAI reports it.
pub struct AssemblyTranscriptResponse {
    pub id: Option<String>,
    pub status: String,
    pub text: Option<String>,
    pub error: Option<String>,
    pub utterances: Option<Vec<AssemblyUtterance>>,
}

/// The utterances of a response, none where it has none.
pub open spec fn response_utterances(p: AssemblyTranscriptResponse) -> Seq<UtteranceView> {
    match p.utterances {
        Some(v) => utterance_views(v@),
        None => seq![],
    }
}

/// The characters of an optional string, empty where it is missing.
pub open spec fn chars_or_empty(o: Option<String>) -> Seq<char> {
    match o {
        Some(s) => s@,
        None => seq![],
    }
}

/// The error when diarization was asked for and no usable utterance came back.
pub open spec fn empty_diarization_message() -> Seq<char> {
    "AssemblyAI diarization enabled but utterances are empty or invalid"@
}

/// The text of a completed transcript: the plain text without diarization; with it, the
/// diarized transcript, which must not be blank.
pub open spec fn completed_transcript(p: AssemblyTranscriptResponse, d: DiarizationConfig) -> Result<
    Seq<char>,
    Seq<char>,
> {
    if !d.enabled {
        Ok(chars_or_empty(p.text))
    } else {
        let formatted = diarized_transcript(response_utterances(p));
        if trim(formatted).len() == 0 {
            Err(empty_diarization_message())
        } else {
            Ok(formatted)
        }
    }
}

/// Without diarization the completed transcript is the plain text, whatever utterances came
/// with it; with diarization, a transcript that is returned is never blank.
pub proof fn lemma_completed_transcript(p: AssemblyTranscriptResponse, q: AssemblyTranscriptResponse, d: DiarizationConfig)
    requires
        p.text == q.text,
    ensures
        !d.enabled ==> completed_transcript(p, d) == completed_transcript(q, d),
        !d.enabled ==> completed_transcript(p, d) == Ok::<Seq<char>, Seq<char>>(chars_or_empty(p.text)),
        d.enabled ==> (completed_transcript(p, d) matches Ok(t) ==> trim(t).len() > 0),
        d.enabled ==> (completed_transcript(p, d) is Err <==> trim(
            diarized_transcript(response_utterances(p)),
        ).len() == 0),
{
}

/// A string result as characters.
pub open spec fn result_chars(r: Result<String, String>) -> Result<Seq<char>, Seq<char>> {
    match r {
        Ok(v) => Ok(v@),
        Err(e) => Err(e@),
    }
}

/// The transcript text of a completed AssemblyAI response.
pub fn format_completed_transcript(payload: AssemblyTranscriptResponse, diarization: &DiarizationConfig) -> (r:
    Result<String, String>)
    ensures
        result_chars(r) == completed_transcript(payload, *diarization),
{
    if !diarization.enabled {
        return match payload.text {
            Some(t) => Ok(t),
            None => Ok(String::new()),
        };
    }
    let formatted = match &payload.utterances {
        Some(v) => format_diarized_transcript(v.as_slice()),
        None => {
            let empty: Vec<AssemblyUtterance> = Vec::new();
            let f = format_diarized_transcript(empty.as_slice());
            assert(utterance_views(empty@) =~= seq![]);
            f
        },
    };
    if is_blank_str(formatted.as_str()) {
        return Err(String::from_str(
            "AssemblyAI diarization enabled but utterances are empty or invalid",
        ));
    }
    Ok(formatted)
}

/// What a polled response means: the finished transcript or failure, or `None` to keep
/// polling (queued, processing or any other status).
pub open spec fn poll_outcome(p: AssemblyTranscriptResponse, d: DiarizationConfig) -> Option<
    Result<Seq<char>, Seq<char>>,
> {
    if p.status@ == "completed"@ {
        Some(completed_transcript(p, d))
    } else if p.status@ == "error"@ || p.status@ == "failed"@ {
        Some(
            Err(
                "AssemblyAI transcription failed: "@ + match p.error {
                    Some(e) => e@,
                    None => "unknown AssemblyAI error"@,
                },
            ),
        )
    } else {
        None
    }
}

/// Decides on one polled transcript response.
pub fn transcript_poll_outcome(payload: AssemblyTranscriptResponse, diarization: &DiarizationConfig) -> (r:
    Option<Result<String, String>>)
    ensures
        match r {
            Some(x) => poll_outcome(payload, *diarization) == Some(result_chars(x)),
            None => poll_outcome(payload, *diarization) is None,
        },
{
    if str_equal(payload.status.as_str(), "completed") {
        return Some(format_completed_transcript(payload, diarization));
    }
    if str_equal(payload.status.as_str(), "error") || str_equal(payload.status.as_str(), "failed") {
        let mut msg = String::from_str("AssemblyAI transcription failed: ");
        match &payload.error {
            Some(e) => msg.append(e.as_str()),
            None => msg.append("unknown AssemblyAI error"),
        }
        return Some(Err(msg));
    }
    None
}

/// The error once polling has gone on for longer than the timeout.
pub open spec fn poll_timeout_message(timeout_secs: u64, transcript_id: Seq<char>) -> Seq<char> {
    "AssemblyAI polling timed out after "@ + decimal(timeout_secs as nat) + "s for transcript "@
        + transcript_id
}

/// `Some` error once the time spent polling exceeds the timeout, `None` before.
pub fn polling_deadline(elapsed_ns: u128, timeout_secs: u64, transcript_id: &str) -> (r: Option<String>)
    ensures
        r is Some <==> elapsed_ns > timeout_secs * 1_000_000_000,
        r matches Some(m) ==> m@ == poll_timeout_message(timeout_secs, transcript_id@),
{
    let limit: u128 = (timeout_secs as u128) * 1_000_000_000u128;
    if elapsed_ns > limit {
        let mut msg = String::from_str("AssemblyAI polling timed out after ");
        msg.append(u64_to_decimal(timeout_secs).as_str());
        msg.append("s for transcript ");
        msg.append(transcript_id);
        Some(msg)
    } else {
        None
    }
}

/// The id of a started transcript, or the error where the response has none.
pub fn transcript_id_from_response(payload: &AssemblyTranscriptResponse) -> (r: Result<String, String>)
    ensures
        match r {
            Ok(id) => payload.id matches Some(i) && id@ == i@,
            Err(e) => payload.id is None && e@ == "AssemblyAI /transcript response missing id"@,
        },
{
    match &payload.id {
        Some(i) => Ok(String::from_str(i.as_str())),
        None => Err(String::from_str("AssemblyAI /transcript response missing id")),
    }
}

/// The poll interval never goes below this many milliseconds.
pub const MIN_POLL_INTERVAL_MS: u64 = 500;

/// The polling timeout never goes below this many seconds.
pub const MIN_TIMEOUT_SECONDS: u64 = 60;

/// `s` without its trailing `/` characters.
pub open spec fn trim_trailing_slashes(s: Seq<char>) -> Seq<char>
    decreases s.len(),
{
    if s.len() > 0 && s.last() == '/' {
        trim_trailing_slashes(s.drop_last())
    } else {
        s
    }
}

fn trim_trailing_slashes_str(s: &str) -> (r: String)
    ensures
        r@ == trim_trailing_slashes(s@),
{
    let v = crate::text::chars_of(s);
    let mut j: usize = v.len();
    assert(s@.subrange(0, j as int) =~= s@);
    while j > 0 && v[j - 1] == '/'
        invariant
            j <= v.len(),
            v@ == s@,
            trim_trailing_slashes(s@) == trim_trailing_slashes(s@.subrange(0, j as int)),
        decreases j,
    {
        assert(s@.subrange(0, j as int).drop_last() =~= s@.subrange(0, j - 1));
        j = j - 1;
    }
    proof {
        let t = s@.subrange(0, j as int);
        if j > 0 {
            assert(t.last() == v@[j - 1]);
        }
    }
    String::from_str(s.substring_char(0, j))
}

/// How an AssemblyAI transcription is to run.
pub struct AssemblyAiPlan {
    pub api_key: String,
    pub base_url: String,
    pub poll_interval_ms: u64,
    pub timeout_secs: u64,
    pub diarization: DiarizationConfig,
}

/// The error for a missing API key.
pub open spec fn api_key_empty_message() -> Seq<char> {
    "AssemblyAI API key is empty. Configure settings.assembly_ai_api_key"@
}

/// The error for a base URL that is not an http(s) URL.
pub open spec fn base_url_invalid_message() -> Seq<char> {
    "AssemblyAI base URL is invalid. Configure settings.assembly_ai_base_url with a valid http(s) URL"@
}

/// Prepares an AssemblyAI transcription: no audio needs none (`Ok(None)`, an empty
/// transcript); otherwise the trimmed key must not be blank and the trimmed base URL must be
/// an http(s) URL, whose trailing slashes are dropped; the poll interval and timeout are
/// raised to their minimums; diarization follows the session's options.
pub fn plan_assembly_ai_transcription(
    audio_is_empty: bool,
    settings: &TranscriptionSettings,
    session_options: Option<&StartSessionOptions>,
) -> (r: Result<Option<AssemblyAiPlan>, String>)
    ensures
        audio_is_empty ==> r matches Ok(None),
        !audio_is_empty && trim(settings.assembly_ai_api_key@).len() == 0 ==> (r matches Err(e)
            && e@ == api_key_empty_message()),
        !audio_is_empty && trim(settings.assembly_ai_api_key@).len() > 0 && !is_http_base_url(
            trim(settings.assembly_ai_base_url@),
        ) ==> (r matches Err(e) && e@ == base_url_invalid_message()),
        !audio_is_empty && trim(settings.assembly_ai_api_key@).len() > 0 && is_http_base_url(
            trim(settings.assembly_ai_base_url@),
        ) ==> (r matches Ok(Some(plan)) && {
            &&& plan.api_key@ == trim(settings.assembly_ai_api_key@)
            &&& plan.base_url@ == trim_trailing_slashes(trim(settings.assembly_ai_base_url@))
            &&& plan.poll_interval_ms == if settings.assembly_ai_poll_interval_ms
                < MIN_POLL_INTERVAL_MS {
                MIN_POLL_INTERVAL_MS
            } else {
                settings.assembly_ai_poll_interval_ms
            }
            &&& plan.timeout_secs == if settings.assembly_ai_timeout_seconds < MIN_TIMEOUT_SECONDS {
                MIN_TIMEOUT_SECONDS
            } else {
                settings.assembly_ai_timeout_seconds
            }
            &&& plan.diarization == diarization_of(
                match session_options {
                    Some(o) => Some(*o),
                    None => None,
                },
            )
        }),
{
    if audio_is_empty {
        return Ok(None);
    }
    let api_key = trim_str(settings.assembly_ai_api_key.as_str());
    if api_key.as_str().is_empty() {
        return Err(String::from_str(
            "AssemblyAI API key is empty. Configure settings.assembly_ai_api_key",
        ));
    }
    let base_url_raw = trim_str(settings.assembly_ai_base_url.as_str());
    if !(!base_url_raw.as_str().is_empty() && (str_starts_with(base_url_raw.as_str(), "http://")
        || str_starts_with(base_url_raw.as_str(), "https://"))) {
        return Err(String::from_str(
            "AssemblyAI base URL is invalid. Configure settings.assembly_ai_base_url with a valid http(s) URL",
        ));
    }
    let base_url = trim_trailing_slashes_str(base_url_raw.as_str());
    let poll_interval_ms = if settings.assembly_ai_poll_interval_ms < MIN_POLL_INTERVAL_MS {
        MIN_POLL_INTERVAL_MS
    } else {
        settings.assembly_ai_poll_interval_ms
    };
    let timeout_secs = if settings.assembly_ai_timeout_seconds < MIN_TIMEOUT_SECONDS {
        MIN_TIMEOUT_SECONDS
    } else {
        settings.assembly_ai_timeout_seconds
    };
    let diarization = diarization_config_from_session_options(session_options);
    Ok(Some(AssemblyAiPlan { api_key, base_url, poll_interval_ms, timeout_secs, diarization }))
}

} // verus!
