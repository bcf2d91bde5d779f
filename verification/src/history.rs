//! The rules behind the history commands: which transcript is exported, how files are
//! named, retention periods, and when post-processing can run.

use vstd::prelude::*;
use vstd::string::*;
use crate::text::{
    chars_of, chars_equal, i64_to_decimal, is_blank_str, lemma_position_absent,
    lemma_position_bound, lemma_position_in_prefix, lemma_position_push,
    lemma_position_push_other, position_of, signed_decimal, str_equal, trim, trim_str,
};

verus! {

/// Result of a transcript download.
pub struct DownloadResult {
    /// Final path where the file was saved.
    pub path: String,
    /// Whether the file was saved to a location the user chose.
    pub user_selected: bool,
}

/// The text that an export of an entry holds: the post-processed text where there is
/// one, otherwise the transcription, trimmed.
pub open spec fn export_text(post_processed: Option<Seq<char>>, transcription: Seq<char>) -> Seq<char> {
    trim(
        match post_processed {
            Some(p) => p,
            None => transcription,
        },
    )
}

/// The error where an entry has no transcript to export.
pub open spec fn no_transcript_message() -> Seq<char> {
    "No transcript available for this entry"@
}

/// The transcript to export for an entry, refused when it is blank.
pub fn export_transcript_text(post_processed_text: Option<&str>, transcription_text: &str) -> (r:
    Result<String, String>)
    ensures
        ({
            let text = export_text(
                match post_processed_text {
                    Some(p) => Some(p@),
                    None => None,
                },
                transcription_text@,
            );
            &&& text.len() == 0 ==> (r matches Err(e) && e@ == no_transcript_message())
            &&& text.len() > 0 ==> (r matches Ok(t) && t@ == text)
        }),
{
    let source = match post_processed_text {
        Some(p) => p,
        None => transcription_text,
    };
    let text = trim_str(source);
    if text.as_str().is_empty() {
        return Err(String::from_str("No transcript available for this entry"));
    }
    Ok(text)
}

/// The error for an id that names no history entry.
pub open spec fn entry_not_found_message(id: int) -> Seq<char> {
    "History entry "@ + signed_decimal(id) + " not found"@
}

/// The error for an id that names no history entry.
pub fn history_entry_not_found(id: i64) -> (r: String)
    ensures
        r@ == entry_not_found_message(id as int),
{
    let mut msg = String::from_str("History entry ");
    msg.append(i64_to_decimal(id).as_str());
    msg.append(" not found");
    msg
}

/// `name` without a trailing `.wav`, where it has one.
pub open spec fn without_wav(name: Seq<char>) -> Seq<char> {
    if name.len() >= 4 && name.subrange(name.len() - 4, name.len() as int) == ".wav"@ {
        name.subrange(0, name.len() - 4)
    } else {
        name
    }
}

/// The file name that a transcript is offered under: the suggested name with `.txt` in
/// place of a trailing `.wav`, or with `.txt` appended.
pub fn transcript_file_name(suggested_name: &str) -> (r: String)
    ensures
        r@ == without_wav(suggested_name@) + ".txt"@,
{
    let v = chars_of(suggested_name);
    let n = v.len();
    let mut keep = n;
    if n >= 4 {
        let tail = suggested_name.substring_char(n - 4, n);
        if str_equal(tail, ".wav") {
            keep = n - 4;
        }
    }
    let mut name = String::from_str(suggested_name.substring_char(0, keep));
    assert(suggested_name@.subrange(0, n as int) =~= suggested_name@);
    name.append(".txt");
    name
}

/// How long recordings are kept.
#[derive(Clone, Copy, Debug, PartialEq, Eq, Structural)]
pub enum RecordingRetentionPeriod {
    Never,
    PreserveLimit,
    Days3,
    Weeks2,
    Months3,
}

/// The retention period that a setting names.
pub open spec fn retention_period_named(period: Seq<char>) -> Option<RecordingRetentionPeriod> {
    if period == "never"@ {
        Some(RecordingRetentionPeriod::Never)
    } else if period == "preserve_limit"@ {
        Some(RecordingRetentionPeriod::PreserveLimit)
    } else if period == "days3"@ {
        Some(RecordingRetentionPeriod::Days3)
    } else if period == "weeks2"@ {
        Some(RecordingRetentionPeriod::Weeks2)
    } else if period == "months3"@ {
        Some(RecordingRetentionPeriod::Months3)
    } else {
        None
    }
}

/// Parses a retention period setting; an unknown name is refused, quoted in the error.
pub fn parse_retention_period(period: &str) -> (r: Result<RecordingRetentionPeriod, String>)
    ensures
        match r {
            Ok(p) => retention_period_named(period@) == Some(p),
            Err(e) => retention_period_named(period@) is None && e@ == "Invalid retention period: "@
                + period@,
        },
{
    let v = chars_of(period);
    if chars_equal(&v, "never") {
        Ok(RecordingRetentionPeriod::Never)
    } else if chars_equal(&v, "preserve_limit") {
        Ok(RecordingRetentionPeriod::PreserveLimit)
    } else if chars_equal(&v, "days3") {
        Ok(RecordingRetentionPeriod::Days3)
    } else if chars_equal(&v, "weeks2") {
        Ok(RecordingRetentionPeriod::Weeks2)
    } else if chars_equal(&v, "months3") {
        Ok(RecordingRetentionPeriod::Months3)
    } else {
        let mut msg = String::from_str("Invalid retention period: ");
        msg.append(period);
        Err(msg)
    }
}

/// A recording without samples cannot be transcribed again.
pub fn retry_audio_check(sample_count: usize) -> (r: Result<(), String>)
    ensures
        sample_count == 0 ==> (r matches Err(e) && e@ == "Recording has no audio samples"@),
        sample_count > 0 ==> r is Ok,
{
    if sample_count == 0 {
        return Err(String::from_str("Recording has no audio samples"));
    }
    Ok(())
}

/// A new transcription that came back empty is refused.
pub fn retry_transcription_check(transcription: &str) -> (r: Result<(), String>)
    ensures
        transcription@.len() == 0 ==> (r matches Err(e) && e@ == "Recording contains no speech"@),
        transcription@.len() > 0 ==> r is Ok,
{
    if transcription.is_empty() {
        return Err(String::from_str("Recording contains no speech"));
    }
    Ok(())
}

/// The keys of a list of entries.
pub open spec fn entry_keys(e: Seq<(String, String)>) -> Seq<Seq<char>> {
    e.map_values(|p: (String, String)| p.0@)
}

/// Values keyed by provider id; each id occurs at most once.
pub struct ProviderMap {
    entries: Vec<(String, String)>,
}

impl View for ProviderMap {
    type V = Map<Seq<char>, Seq<char>>;

    closed spec fn view(&self) -> Map<Seq<char>, Seq<char>> {
        let ks = entry_keys(self.entries@);
        Map::new(
            |k: Seq<char>| position_of(ks, k) < ks.len(),
            |k: Seq<char>| self.entries@[position_of(ks, k) as int].1@,
        )
    }
}

impl ProviderMap {
    /// No key occurs twice.
    #[verifier::type_invariant]
    spec fn keys_unique(self) -> bool {
        let ks = entry_keys(self.entries@);
        forall|i: int, j: int| 0 <= i < j < ks.len() ==> ks[i] != ks[j]
    }

    /// A map with no keys.
    pub fn new() -> (r: Self)
        ensures
            r@ == Map::<Seq<char>, Seq<char>>::empty(),
    {
        let r = ProviderMap { entries: Vec::new() };
        assert(r@ =~= Map::<Seq<char>, Seq<char>>::empty());
        r
    }

    fn position(&self, key: &str) -> (r: usize)
        ensures
            r == position_of(entry_keys(self.entries@), key@),
            r <= self.entries.len(),
    {
        let ghost ks = entry_keys(self.entries@);
        let mut j: usize = 0;
        assert(ks.skip(0) =~= ks);
        while j < self.entries.len()
            invariant
                j <= self.entries.len(),
                ks == entry_keys(self.entries@),
                position_of(ks, key@) == j + position_of(ks.skip(j as int), key@),
            decreases self.entries.len() - j,
        {
            assert(ks.skip(j as int)[0] == ks[j as int]);
            if str_equal(self.entries[j].0.as_str(), key) {
                return j;
            }
            assert(ks.skip(j as int).drop_first() =~= ks.skip(j + 1));
            j = j + 1;
        }
        assert(ks.skip(j as int) =~= seq![]);
        j
    }

    /// The value stored under `key`.
    pub fn get(&self, key: &str) -> (r: Option<&String>)
        ensures
            match r {
                Some(v) => self@.dom().contains(key@) && self@[key@] == v@,
                None => !self@.dom().contains(key@),
            },
    {
        let p = self.position(key);
        if p < self.entries.len() {
            Some(&self.entries[p].1)
        } else {
            None
        }
    }

    /// Stores `value` under `key`, replacing any value stored there.
    pub fn insert(&mut self, key: String, value: String)
        ensures
            final(self)@ == old(self)@.insert(key@, value@),
    {
        proof {
            use_type_invariant(&*self);
        }
        let ghost old_entries = self.entries@;
        let ghost ks = entry_keys(old_entries);
        let ghost k = key@;
        let ghost v = value@;
        let ghost before = self@;
        let p = self.position(key.as_str());
        proof {
            lemma_position_bound(ks, k);
        }
        if p < self.entries.len() {
            let mut entries: Vec<(String, String)> = Vec::new();
            std::mem::swap(&mut entries, &mut self.entries);
            entries.set(p, (key, value));
            proof {
                assert(entry_keys(entries@) =~= ks);
            }
            self.entries = entries;
            proof {
                assert forall|x: Seq<char>| #![auto] before.insert(k, v).dom().contains(x) implies self@.dom().contains(x) && self@[x] == before.insert(k, v)[x] by {
                    lemma_position_bound(ks, x);
                }
                assert(self@ =~= before.insert(k, v));
            }
        } else {
            let mut entries: Vec<(String, String)> = Vec::new();
            std::mem::swap(&mut entries, &mut self.entries);
            entries.push((key, value));
            proof {
                assert(entry_keys(entries@) =~= ks.push(k));
                lemma_position_absent(ks, k);
                lemma_position_push(ks, k);
            }
            self.entries = entries;
            proof {
                let ks2 = ks.push(k);
                assert(ks2.take(ks.len() as int) =~= ks);
                let after = before.insert(k, v);
                assert forall|x: Seq<char>| #[trigger] self@.dom().contains(x) == after.dom().contains(x) by {
                    lemma_position_bound(ks, x);
                    if x != k {
                        if position_of(ks, x) < ks.len() {
                            lemma_position_in_prefix(ks, ks2, x);
                        } else {
                            lemma_position_push_other(ks, k, x);
                        }
                    }
                }
                assert forall|x: Seq<char>| #[trigger] after.dom().contains(x) implies self@[x] == after[x] by {
                    lemma_position_bound(ks, x);
                    if x != k {
                        lemma_position_in_prefix(ks, ks2, x);
                    }
                }
                assert(self@ =~= before.insert(k, v));
            }
        }
    }
}

/// A post-processing prompt.
pub struct PostProcessPrompt {
    pub id: String,
    pub prompt: String,
}

/// The settings that post-processing reads.
pub struct PostProcessSettings {
    pub post_process_enabled: bool,
    /// The id of the active provider, where one is active.
    pub active_provider_id: Option<String>,
    /// The model chosen for each provider id.
    pub post_process_models: ProviderMap,
    pub post_process_selected_prompt_id: Option<String>,
    pub post_process_prompts: Vec<PostProcessPrompt>,
    /// The API key stored for each provider id.
    pub post_process_api_keys: ProviderMap,
}

/// The provider id of the on-device Apple Intelligence provider, which needs no API key.
pub open spec fn apple_intelligence_provider() -> Seq<char> {
    "apple_intelligence"@
}

/// The value stored under `key`, if any.
pub open spec fn lookup(m: Map<Seq<char>, Seq<char>>, key: Seq<char>) -> Option<Seq<char>> {
    if m.dom().contains(key) {
        Some(m[key])
    } else {
        None
    }
}

/// The text of the first prompt with the given id.
pub open spec fn prompt_with_id(prompts: Seq<PostProcessPrompt>, id: Seq<char>) -> Option<Seq<char>>
    decreases prompts.len(),
{
    if prompts.len() == 0 {
        None
    } else if prompts[0].id@ == id {
        Some(prompts[0].prompt@)
    } else {
        prompt_with_id(prompts.drop_first(), id)
    }
}

/// The selected prompt is found wherever it stands: a prompt is found exactly when some
/// prompt of the list has the id, and what is found is the text of the first such prompt.
pub proof fn lemma_prompt_found_anywhere(prompts: Seq<PostProcessPrompt>, id: Seq<char>)
    ensures
        prompt_with_id(prompts, id) is Some <==> exists|i: int| 0 <= i < prompts.len() && #[trigger] prompts[i].id@ == id,
        prompt_with_id(prompts, id) is Some ==> exists|i: int| #![trigger prompts[i]]
            0 <= i < prompts.len() && prompts[i].id@ == id && prompts[i].prompt@ == prompt_with_id(prompts, id)->Some_0
                && forall|j: int| 0 <= j < i ==> prompts[j].id@ != id,
    decreases prompts.len(),
{
    if prompts.len() > 0 {
        let rest = prompts.drop_first();
        lemma_prompt_found_anywhere(rest, id);
        if prompts[0].id@ != id {
            if exists|i: int| 0 <= i < prompts.len() && #[trigger] prompts[i].id@ == id {
                let i = choose|i: int| 0 <= i < prompts.len() && #[trigger] prompts[i].id@ == id;
                assert(rest[i - 1] == prompts[i]);
            }
            if prompt_with_id(rest, id) is Some {
                let i = choose|i: int| #![trigger rest[i]]
                    0 <= i < rest.len() && rest[i].id@ == id && rest[i].prompt@ == prompt_with_id(rest, id)->Some_0
                        && forall|j: int| 0 <= j < i ==> rest[j].id@ != id;
                assert(prompts[i + 1] == rest[i]);
                assert forall|j: int| 0 <= j < i + 1 implies prompts[j].id@ != id by {
                    if j > 0 {
                        assert(prompts[j] == rest[j - 1]);
                    }
                }
            }
        } else {
            assert(prompts[0].id@ == id);
        }
    }
}

/// The trimmed stored value, empty where none is stored.
pub open spec fn trimmed_or_empty(v: Option<Seq<char>>) -> Seq<char> {
    match v {
        Some(s) => trim(s),
        None => seq![],
    }
}

/// The first reason why post-processing cannot run with these settings, if any.
pub open spec fn post_process_problem(s: PostProcessSettings) -> Option<Seq<char>> {
    if !s.post_process_enabled {
        Some("post_process_disabled"@)
    } else {
        match s.active_provider_id {
            None => Some("post_process_provider_missing"@),
            Some(p) => if trimmed_or_empty(lookup(s.post_process_models@, p@)).len() == 0 {
                Some("post_process_model_missing"@)
            } else {
                match s.post_process_selected_prompt_id {
                    None => Some("post_process_prompt_not_selected"@),
                    Some(id) => match prompt_with_id(s.post_process_prompts@, id@) {
                        None => Some("post_process_prompt_not_found"@),
                        Some(prompt) => if trim(prompt).len() == 0 {
                            Some("post_process_prompt_empty"@)
                        } else if p@ != "custom"@ && p@ != apple_intelligence_provider()
                            && trimmed_or_empty(lookup(s.post_process_api_keys@, p@)).len() == 0 {
                            Some("post_process_api_key_missing"@)
                        } else {
                            None
                        },
                    },
                }
            },
        }
    }
}

fn find_prompt<'a>(prompts: &'a Vec<PostProcessPrompt>, id: &str) -> (r: Option<&'a String>)
    ensures
        match r {
            Some(v) => prompt_with_id(prompts@, id@) == Some(v@),
            None => prompt_with_id(prompts@, id@) is None,
        },
{
    let mut i: usize = 0;
    assert(prompts@.skip(0) =~= prompts@);
    while i < prompts.len()
        invariant
            i <= prompts.len(),
            prompt_with_id(prompts@, id@) == prompt_with_id(prompts@.skip(i as int), id@),
        decreases prompts.len() - i,
    {
        assert(prompts@.skip(i as int)[0] == prompts@[i as int]);
        if str_equal(prompts[i].id.as_str(), id) {
            return Some(&prompts[i].prompt);
        }
        assert(prompts@.skip(i as int).drop_first() =~= prompts@.skip(i + 1));
        i = i + 1;
    }
    assert(prompts@.skip(i as int) =~= seq![]);
    None
}

fn blank_or_missing(v: Option<&String>) -> (r: bool)
    ensures
        r == (trimmed_or_empty(
            match v {
                Some(s) => Some(s@),
                None => None,
            },
        ).len() == 0),
{
    match v {
        Some(s) => is_blank_str(s.as_str()),
        None => true,
    }
}

/// Checks that post-processing is enabled and fully configured: a provider with a model,
/// a selected prompt that exists and is not blank, and an API key for providers that need one.
pub fn check_post_process_settings(settings: &PostProcessSettings) -> (r: Result<(), String>)
    ensures
        match r {
            Ok(_) => post_process_problem(*settings) is None,
            Err(e) => post_process_problem(*settings) == Some(e@),
        },
{
    if !settings.post_process_enabled {
        return Err(String::from_str("post_process_disabled"));
    }
    let provider = match &settings.active_provider_id {
        Some(p) => p,
        None => {
            return Err(String::from_str("post_process_provider_missing"));
        },
    };
    if blank_or_missing(settings.post_process_models.get(provider.as_str())) {
        return Err(String::from_str("post_process_model_missing"));
    }
    let prompt_id = match &settings.post_process_selected_prompt_id {
        Some(id) => id,
        None => {
            return Err(String::from_str("post_process_prompt_not_selected"));
        },
    };
    let prompt = match find_prompt(&settings.post_process_prompts, prompt_id.as_str()) {
        Some(p) => p,
        None => {
            return Err(String::from_str("post_process_prompt_not_found"));
        },
    };
    if is_blank_str(prompt.as_str()) {
        return Err(String::from_str("post_process_prompt_empty"));
    }
    if !str_equal(provider.as_str(), "custom") && !str_equal(provider.as_str(), "apple_intelligence") {
        if blank_or_missing(settings.post_process_api_keys.get(provider.as_str())) {
            return Err(String::from_str("post_process_api_key_missing"));
        }
    }
    Ok(())
}

/// A prompt that is in the list is never reported missing: whenever some prompt has the
/// selected id, the check does not answer `post_process_prompt_not_found`.
pub proof fn lemma_listed_prompt_is_not_missing(s: PostProcessSettings, i: int)
    requires
        s.post_process_selected_prompt_id is Some,
        0 <= i < s.post_process_prompts@.len(),
        s.post_process_prompts@[i].id@ == s.post_process_selected_prompt_id->Some_0@,
    ensures
        post_process_problem(s) != Some("post_process_prompt_not_found"@),
{
    lemma_prompt_found_anywhere(s.post_process_prompts@, s.post_process_selected_prompt_id->Some_0@);
    reveal_strlit("post_process_prompt_not_found");
    reveal_strlit("post_process_disabled");
    reveal_strlit("post_process_provider_missing");
    reveal_strlit("post_process_model_missing");
    reveal_strlit("post_process_prompt_not_selected");
    reveal_strlit("post_process_prompt_empty");
    reveal_strlit("post_process_api_key_missing");
    assert(s.post_process_prompts@[i].id@ == s.post_process_selected_prompt_id->Some_0@);
    let target = "post_process_prompt_not_found"@;
    assert("post_process_provider_missing"@[16] != target[16]);
    assert("post_process_provider_missing"@ != target);
    assert("post_process_disabled"@.len() != target.len());
    assert("post_process_model_missing"@.len() != target.len());
    assert("post_process_prompt_not_selected"@.len() != target.len());
    assert("post_process_prompt_empty"@.len() != target.len());
    assert("post_process_api_key_missing"@.len() != target.len());
}

} // verus!
