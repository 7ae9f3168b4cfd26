//! The request side of cloud speech-to-text over an OpenAI-compatible
//! `/audio/transcriptions` endpoint: which provider, key and model a request
//! uses, what it carries, and how a reply is read.
//!
//! Provider credentials and base URLs are shared with post-processing: the
//! provider is looked up among the post-processing providers by id, and its
//! key among the post-processing API keys.

use vstd::prelude::*;
use crate::text::{
    chars_of, is_white_space, join, starts_with, str_eq, str_starts_with, trim, trim_end, trim_start,
    trimmed,
};
use crate::wav::{encode_wav, wav_file, MAX_WAV_SAMPLES, WHISPER_SAMPLE_RATE};

verus! {

broadcast use vstd::string::group_string_axioms;

/// A post-processing provider, as far as transcription reads it.
#[derive(Clone, Debug)]
pub struct PostProcessProvider {
    pub id: String,
    pub label: String,
    pub base_url: String,
}

/// The settings that cloud transcription reads.
#[derive(Clone, Debug)]
pub struct CloudSttSettings {
    pub cloud_stt_provider_id: String,
    pub cloud_stt_model: String,
    pub post_process_providers: Vec<PostProcessProvider>,
    /// Provider id and API key, one pair per provider as the settings map
    /// holds them; where an id repeats, the first pair counts.
    pub post_process_api_keys: Vec<(String, String)>,
    pub custom_words: Vec<String>,
}

/// Why a transcription request cannot be made.
#[derive(Debug)]
pub enum CloudSttError {
    NoProviderSelected,
    UnknownProvider(String),
    NoHttpEndpoint(String),
    NoModelSet,
    NoApiKey(String),
    AudioTooLong,
    InvalidApiKey,
}

/// The abstract value of a [`CloudSttError`].
pub enum CloudSttErrorView {
    NoProviderSelected,
    UnknownProvider(Seq<char>),
    NoHttpEndpoint(Seq<char>),
    NoModelSet,
    NoApiKey(Seq<char>),
    AudioTooLong,
    InvalidApiKey,
}

impl View for CloudSttError {
    type V = CloudSttErrorView;

    open spec fn view(&self) -> CloudSttErrorView {
        match self {
            CloudSttError::NoProviderSelected => CloudSttErrorView::NoProviderSelected,
            CloudSttError::UnknownProvider(id) => CloudSttErrorView::UnknownProvider(id@),
            CloudSttError::NoHttpEndpoint(id) => CloudSttErrorView::NoHttpEndpoint(id@),
            CloudSttError::NoModelSet => CloudSttErrorView::NoModelSet,
            CloudSttError::NoApiKey(label) => CloudSttErrorView::NoApiKey(label@),
            CloudSttError::AudioTooLong => CloudSttErrorView::AudioTooLong,
            CloudSttError::InvalidApiKey => CloudSttErrorView::InvalidApiKey,
        }
    }
}

/// Everything a transcription request sends besides the HTTP plumbing.
#[derive(Debug)]
pub struct TranscriptionRequest {
    pub url: String,
    pub model: String,
    /// The value of the `Authorization` header.
    pub authorization: String,
    /// The audio, as a WAVE file.
    pub wav: Vec<u8>,
    /// The `language` form field, absent when the model is to detect it.
    pub language: Option<String>,
    /// The `prompt` form field, absent when there is no vocabulary hint.
    pub prompt: Option<String>,
}

/// The abstract value of a [`TranscriptionRequest`].
pub struct TranscriptionRequestView {
    pub url: Seq<char>,
    pub model: Seq<char>,
    pub authorization: Seq<char>,
    pub wav: Seq<u8>,
    pub language: Option<Seq<char>>,
    pub prompt: Option<Seq<char>>,
}

impl View for TranscriptionRequest {
    type V = TranscriptionRequestView;

    open spec fn view(&self) -> TranscriptionRequestView {
        TranscriptionRequestView {
            url: self.url@,
            model: self.model@,
            authorization: self.authorization@,
            wav: self.wav@,
            language: match self.language {
                Some(l) => Some(l@),
                None => None,
            },
            prompt: match self.prompt {
                Some(p) => Some(p@),
                None => None,
            },
        }
    }
}

// ---------------------------------------------------------------------------
// Endpoint URL

/// `s` without its trailing slashes.
pub open spec fn trim_end_slashes(s: Seq<char>) -> Seq<char>
    decreases s.len(),
{
    if s.len() > 0 && s.last() == '/' {
        trim_end_slashes(s.drop_last())
    } else {
        s
    }
}

/// The transcriptions endpoint under a provider base URL.
pub open spec fn transcriptions_url_of(base_url: Seq<char>) -> Seq<char> {
    trim_end_slashes(base_url) + "/audio/transcriptions"@
}

/// Joins a provider base URL with the transcriptions path, without doubling
/// the slash between them.
pub fn transcriptions_url(base_url: &str) -> (url: String)
    ensures
        url@ == transcriptions_url_of(base_url@),
{
    let cs = chars_of(base_url);
    let mut end: usize = cs.len();
    assert(cs@.subrange(0, end as int) =~= cs@);
    while end > 0 && cs[end - 1] == '/'
        invariant
            end <= cs@.len(),
            cs@ == base_url@,
            trim_end_slashes(base_url@) == trim_end_slashes(cs@.subrange(0, end as int)),
        decreases end,
    {
        assert(cs@.subrange(0, end as int).drop_last() =~= cs@.subrange(0, end - 1));
        end = end - 1;
    }
    let kept = base_url.substring_char(0, end);
    String::from_str(kept).concat("/audio/transcriptions")
}

// ---------------------------------------------------------------------------
// Vocabulary hint

/// The custom words that go into the hint: each trimmed, the empty ones left
/// out, in their order.
pub open spec fn prompt_words(words: Seq<Seq<char>>) -> Seq<Seq<char>>
    decreases words.len(),
{
    if words.len() == 0 {
        Seq::empty()
    } else {
        let rest = prompt_words(words.drop_last());
        let w = trim(words.last());
        if w.len() == 0 {
            rest
        } else {
            rest.push(w)
        }
    }
}

/// The views of a sequence of strings.
pub open spec fn string_views(words: Seq<String>) -> Seq<Seq<char>> {
    words.map_values(|w: String| w@)
}

/// The vocabulary hint made of `words`.
pub open spec fn prompt_of(words: Seq<String>) -> Seq<char> {
    join(prompt_words(string_views(words)), ", "@)
}

proof fn lemma_join_push(parts: Seq<Seq<char>>, w: Seq<char>, sep: Seq<char>)
    ensures
        join(parts.push(w), sep) == if parts.len() == 0 {
            w
        } else {
            join(parts, sep) + sep + w
        },
{
    assert(parts.push(w).drop_last() =~= parts);
}

/// Builds the vocabulary hint sent with the request, the custom words
/// trimmed, without the empty ones, joined by ", ".
pub fn build_prompt(custom_words: &Vec<String>) -> (prompt: String)
    ensures
        prompt@ == prompt_of(custom_words@),
{
    let ghost views = string_views(custom_words@);
    let mut prompt = String::new();
    let mut count: usize = 0;
    let n = custom_words.len();
    assert(views.take(0) =~= Seq::<Seq<char>>::empty());
    for i in 0..n
        invariant
            n == custom_words@.len(),
            views == string_views(custom_words@),
            prompt@ == join(prompt_words(views.take(i as int)), ", "@),
            count == prompt_words(views.take(i as int)).len(),
            count <= i,
    {
        let word = trimmed(custom_words[i].as_str());
        assert(views.take(i + 1).drop_last() =~= views.take(i as int));
        assert(views.take(i + 1).last() == custom_words@[i as int]@);
        proof {
            lemma_join_push(prompt_words(views.take(i as int)), trim(views[i as int]), ", "@);
        }
        if word.unicode_len() > 0 {
            if count > 0 {
                prompt.append(", ");
            }
            prompt.append(word);
            count = count + 1;
        }
    }
    assert(views.take(n as int) =~= views);
    prompt
}

// ---------------------------------------------------------------------------
// Provider, model and key

/// Whether provider `i` is the first one whose id is `id`.
pub open spec fn is_first_provider(ps: Seq<PostProcessProvider>, id: Seq<char>, i: int) -> bool {
    &&& 0 <= i < ps.len()
    &&& ps[i].id@ == id
    &&& forall|j: int| 0 <= j < i ==> ps[j].id@ != id
}

/// Whether some provider has the id `id`.
pub open spec fn has_provider(ps: Seq<PostProcessProvider>, id: Seq<char>) -> bool {
    exists|i: int| 0 <= i < ps.len() && ps[i].id@ == id
}

/// The first provider whose id is `id`, where there is one.
pub open spec fn provider_with_id(ps: Seq<PostProcessProvider>, id: Seq<char>) -> PostProcessProvider {
    ps[choose|i: int| is_first_provider(ps, id, i)]
}

/// Whether pair `i` is the first one whose key is `id`.
pub open spec fn is_first_key(keys: Seq<(String, String)>, id: Seq<char>, i: int) -> bool {
    &&& 0 <= i < keys.len()
    &&& keys[i].0@ == id
    &&& forall|j: int| 0 <= j < i ==> keys[j].0@ != id
}

/// The API key stored for provider `id`, or the empty text where there is
/// none.
pub open spec fn api_key_for(keys: Seq<(String, String)>, id: Seq<char>) -> Seq<char> {
    if exists|i: int| is_first_key(keys, id, i) {
        keys[choose|i: int| is_first_key(keys, id, i)].1@
    } else {
        Seq::empty()
    }
}

/// Whether `c` may stand in an HTTP header value: a visible character,
/// a space, a tab, or any character beyond ASCII.
pub open spec fn header_char_ok(c: char) -> bool {
    c == '\t' || (c as u32 >= 32 && c as u32 != 127)
}

/// Whether every character of `s` may stand in an HTTP header value.
pub open spec fn header_value_ok(s: Seq<char>) -> bool {
    forall|i: int| 0 <= i < s.len() ==> header_char_ok(#[trigger] s[i])
}

/// The `Authorization` header value for `api_key`.
pub open spec fn bearer(api_key: Seq<char>) -> Seq<char> {
    "Bearer "@ + trim(api_key)
}

/// The reason no request can be made from `s`, if there is one, in the order
/// in which they are checked.
pub open spec fn transcription_error(s: CloudSttSettings, n_samples: nat) -> Option<CloudSttErrorView> {
    let id = trim(s.cloud_stt_provider_id@);
    if id.len() == 0 {
        Some(CloudSttErrorView::NoProviderSelected)
    } else if !has_provider(s.post_process_providers@, id) {
        Some(CloudSttErrorView::UnknownProvider(id))
    } else {
        let p = provider_with_id(s.post_process_providers@, id);
        let key = api_key_for(s.post_process_api_keys@, p.id@);
        if !starts_with(p.base_url@, "http"@) {
            Some(CloudSttErrorView::NoHttpEndpoint(p.id@))
        } else if trim(s.cloud_stt_model@).len() == 0 {
            Some(CloudSttErrorView::NoModelSet)
        } else if trim(key).len() == 0 {
            Some(CloudSttErrorView::NoApiKey(p.label@))
        } else if n_samples > MAX_WAV_SAMPLES {
            Some(CloudSttErrorView::AudioTooLong)
        } else if !header_value_ok(bearer(key)) {
            Some(CloudSttErrorView::InvalidApiKey)
        } else {
            None
        }
    }
}

/// The `language` field sent for the caller's language: none for an absent,
/// empty or "auto" language, which lets the provider detect it.
pub open spec fn language_field(language: Option<Seq<char>>) -> Option<Seq<char>> {
    match language {
        Some(l) => if l.len() > 0 && l != "auto"@ {
            Some(l)
        } else {
            None
        },
        None => None,
    }
}

/// The request made from `s`, `samples` and `language` when
/// `transcription_error(s, samples.len())` is `None`.
pub open spec fn transcription_request(
    s: CloudSttSettings,
    samples: Seq<i16>,
    language: Option<Seq<char>>,
) -> TranscriptionRequestView {
    let p = provider_with_id(s.post_process_providers@, trim(s.cloud_stt_provider_id@));
    let prompt = prompt_of(s.custom_words@);
    TranscriptionRequestView {
        url: transcriptions_url_of(p.base_url@),
        model: trim(s.cloud_stt_model@),
        authorization: bearer(api_key_for(s.post_process_api_keys@, p.id@)),
        wav: wav_file(samples, WHISPER_SAMPLE_RATE),
        language: language_field(language),
        prompt: if prompt.len() == 0 {
            None
        } else {
            Some(prompt)
        },
    }
}

/// The view of an optional text.
pub open spec fn opt_str_view(o: Option<&str>) -> Option<Seq<char>> {
    match o {
        Some(s) => Some(s@),
        None => None,
    }
}

fn find_provider(ps: &Vec<PostProcessProvider>, id: &str) -> (r: Option<usize>)
    ensures
        r matches Some(i) ==> is_first_provider(ps@, id@, i as int),
        r is None ==> !has_provider(ps@, id@),
{
    for i in 0..ps.len()
        invariant
            forall|j: int| 0 <= j < i ==> ps@[j].id@ != id@,
    {
        if str_eq(ps[i].id.as_str(), id) {
            return Some(i);
        }
    }
    None
}

fn find_api_key(keys: &Vec<(String, String)>, id: &str) -> (r: String)
    ensures
        r@ == api_key_for(keys@, id@),
{
    for i in 0..keys.len()
        invariant
            forall|j: int| 0 <= j < i ==> keys@[j].0@ != id@,
    {
        if str_eq(keys[i].0.as_str(), id) {
            assert(is_first_key(keys@, id@, i as int));
            return keys[i].1.clone();
        }
    }
    String::new()
}

/// Whether `value` is accepted as an HTTP header value.
///
/// Calls `http::HeaderValue::from_str` (re-exported by reqwest), which
/// refuses a value exactly when one of its bytes is a control byte other
/// than tab, that is below 32 or 127; every byte of a character beyond ASCII
/// is 128 or more and accepted.
#[verifier::external_body]
fn header_value_accepted(value: &str) -> (ok: bool)
    ensures
        ok == header_value_ok(value@),
{
    reqwest::header::HeaderValue::from_str(value).is_ok()
}

fn language_for_request(language: Option<&str>) -> (r: Option<String>)
    ensures
        (match r {
            Some(l) => Some(l@),
            None => None,
        }) == language_field(opt_str_view(language)),
{
    match language {
        Some(l) => {
            if l.unicode_len() > 0 && !str_eq(l, "auto") {
                Some(String::from_str(l))
            } else {
                None
            }
        },
        None => None,
    }
}

/// Makes the transcription request for `samples` with the configured cloud
/// provider, or says why none can be made. `language` is the caller's
/// resolved language; `None` or "auto" lets the provider detect it.
pub fn build_transcription_request(
    settings: &CloudSttSettings,
    samples: &[i16],
    language: Option<&str>,
) -> (r: Result<TranscriptionRequest, CloudSttError>)
    ensures
        (match transcription_error(*settings, samples@.len()) {
            Some(e) => r matches Err(x) && x@ == e,
            None => r matches Ok(req) && req@ == transcription_request(
                *settings,
                samples@,
                opt_str_view(language),
            ),
        }),
{
    let provider_id = trimmed(settings.cloud_stt_provider_id.as_str());
    if provider_id.unicode_len() == 0 {
        return Err(CloudSttError::NoProviderSelected);
    }
    let index = match find_provider(&settings.post_process_providers, provider_id) {
        Some(i) => i,
        None => {
            return Err(CloudSttError::UnknownProvider(String::from_str(provider_id)));
        },
    };
    let provider = &settings.post_process_providers[index];
    proof {
        let ps = settings.post_process_providers@;
        assert(is_first_provider(ps, provider_id@, index as int));
        let c = choose|i: int| is_first_provider(ps, provider_id@, i);
        assert(c == index as int) by {
            if c < index as int {
                assert(ps[c].id@ != provider_id@);
            }
            if c > index as int {
                assert(ps[index as int].id@ != provider_id@);
            }
        }
    }
    if !str_starts_with(provider.base_url.as_str(), "http") {
        return Err(CloudSttError::NoHttpEndpoint(provider.id.clone()));
    }
    let model = trimmed(settings.cloud_stt_model.as_str());
    if model.unicode_len() == 0 {
        return Err(CloudSttError::NoModelSet);
    }
    let api_key = find_api_key(&settings.post_process_api_keys, provider.id.as_str());
    let key = trimmed(api_key.as_str());
    if key.unicode_len() == 0 {
        return Err(CloudSttError::NoApiKey(provider.label.clone()));
    }
    if samples.len() > MAX_WAV_SAMPLES {
        return Err(CloudSttError::AudioTooLong);
    }
    let wav = encode_wav(samples);
    let url = transcriptions_url(provider.base_url.as_str());
    let authorization = String::from_str("Bearer ").concat(key);
    if !header_value_accepted(authorization.as_str()) {
        return Err(CloudSttError::InvalidApiKey);
    }
    let prompt = build_prompt(&settings.custom_words);
    let prompt = if prompt.unicode_len() > 0 {
        Some(prompt)
    } else {
        None
    };
    Ok(
        TranscriptionRequest {
            url,
            model: String::from_str(model),
            authorization,
            wav,
            language: language_for_request(language),
            prompt,
        },
    )
}

// ---------------------------------------------------------------------------
// Error text and reply

/// The text shown for a refused transcription request.
pub open spec fn error_message(e: CloudSttErrorView) -> Seq<char> {
    match e {
        CloudSttErrorView::NoProviderSelected =>
            "Cloud transcription is enabled but no provider is selected"@,
        CloudSttErrorView::UnknownProvider(id) =>
            "Unknown cloud transcription provider '"@ + id + "'"@,
        CloudSttErrorView::NoHttpEndpoint(id) =>
            "Provider '"@ + id + "' has no HTTP endpoint and cannot be used for transcription"@,
        CloudSttErrorView::NoModelSet => "Cloud transcription is enabled but no model is set"@,
        CloudSttErrorView::NoApiKey(label) => "No API key configured for '"@ + label + "'"@,
        CloudSttErrorView::AudioTooLong =>
            "Failed to encode audio sample: the recording is too long for a WAV file"@,
        CloudSttErrorView::InvalidApiKey =>
            "API key contains characters that cannot be sent in a header"@,
    }
}

impl CloudSttError {
    /// The text shown for this error.
    pub fn message(&self) -> (m: String)
        ensures
            m@ == error_message(self@),
    {
        match self {
            CloudSttError::NoProviderSelected => String::from_str(
                "Cloud transcription is enabled but no provider is selected",
            ),
            CloudSttError::UnknownProvider(id) => String::from_str(
                "Unknown cloud transcription provider '",
            ).concat(id.as_str()).concat("'"),
            CloudSttError::NoHttpEndpoint(id) => String::from_str("Provider '").concat(
                id.as_str(),
            ).concat("' has no HTTP endpoint and cannot be used for transcription"),
            CloudSttError::NoModelSet => String::from_str(
                "Cloud transcription is enabled but no model is set",
            ),
            CloudSttError::NoApiKey(label) => String::from_str(
                "No API key configured for '",
            ).concat(label.as_str()).concat("'"),
            CloudSttError::AudioTooLong => String::from_str(
                "Failed to encode audio sample: the recording is too long for a WAV file",
            ),
            CloudSttError::InvalidApiKey => String::from_str(
                "API key contains characters that cannot be sent in a header",
            ),
        }
    }
}

/// How many characters of a failed reply's body go into the error.
pub const ERROR_DETAIL_CHARS: usize = 300;

/// At most the first [`ERROR_DETAIL_CHARS`] characters of `body`.
pub open spec fn error_detail(body: Seq<char>) -> Seq<char> {
    if body.len() <= ERROR_DETAIL_CHARS {
        body
    } else {
        body.take(ERROR_DETAIL_CHARS as int)
    }
}

/// The error for a reply whose status is not a success.
pub open spec fn failure_message(status: Seq<char>, body: Seq<char>) -> Seq<char> {
    "Transcription failed ("@ + status + "): "@ + error_detail(body)
}

/// Checks the status of a transcription reply. A failed reply becomes an
/// error carrying the status and the start of the body, which for provider
/// errors is short and says what went wrong.
pub fn check_transcription_status(success: bool, status: &str, body: &str) -> (r: Result<(), String>)
    ensures
        r is Ok <==> success,
        r matches Err(m) ==> m@ == failure_message(status@, body@),
{
    if success {
        return Ok(());
    }
    let n = body.unicode_len();
    let cut = if n <= ERROR_DETAIL_CHARS {
        n
    } else {
        ERROR_DETAIL_CHARS
    };
    let detail = body.substring_char(0, cut);
    assert(detail@ =~= error_detail(body@));
    Err(String::from_str("Transcription failed (").concat(status).concat("): ").concat(detail))
}

/// The transcript in a parsed reply: its `text`, trimmed, or the empty text
/// when the reply has none.
pub fn transcript_text(text: Option<String>) -> (t: String)
    ensures
        t@ == (match text {
            Some(s) => trim(s@),
            None => Seq::<char>::empty(),
        }),
{
    match text {
        Some(s) => String::from_str(trimmed(s.as_str())),
        None => String::new(),
    }
}

// ---------------------------------------------------------------------------
// Laws

proof fn lemma_trim_end_slashes_shape(s: Seq<char>)
    ensures
        trim_end_slashes(s).len() == 0 || trim_end_slashes(s).last() != '/',
        trim_end_slashes(trim_end_slashes(s)) == trim_end_slashes(s),
    decreases s.len(),
{
    if s.len() > 0 && s.last() == '/' {
        lemma_trim_end_slashes_shape(s.drop_last());
    }
}

/// The endpoint URL does not depend on trailing slashes of the base URL,
/// and there is never more than one slash before the transcriptions path.
pub proof fn lemma_url_ignores_trailing_slashes(base: Seq<char>)
    ensures
        transcriptions_url_of(base.push('/')) == transcriptions_url_of(base),
        transcriptions_url_of(trim_end_slashes(base)) == transcriptions_url_of(base),
        trim_end_slashes(base).len() == 0 || trim_end_slashes(base).last() != '/',
{
    assert(base.push('/').drop_last() =~= base);
    lemma_trim_end_slashes_shape(base);
}

proof fn lemma_trim_start_shape(s: Seq<char>)
    ensures
        trim_start(s).len() == 0 || !is_white_space(trim_start(s)[0]),
    decreases s.len(),
{
    if s.len() > 0 && is_white_space(s[0]) {
        lemma_trim_start_shape(s.drop_first());
    }
}

proof fn lemma_trim_end_shape(s: Seq<char>)
    ensures
        trim_end(s) == s.take(trim_end(s).len() as int),
        trim_end(s).len() <= s.len(),
        trim_end(s).len() == 0 || !is_white_space(trim_end(s).last()),
    decreases s.len(),
{
    if s.len() > 0 && is_white_space(s.last()) {
        lemma_trim_end_shape(s.drop_last());
        assert(s.drop_last().take(trim_end(s).len() as int) =~= s.take(trim_end(s).len() as int));
    } else {
        assert(s.take(s.len() as int) =~= s);
    }
}

/// Trimming twice is trimming once.
pub proof fn lemma_trim_idempotent(s: Seq<char>)
    ensures
        trim(trim(s)) == trim(s),
{
    let t = trim_start(s);
    let u = trim_end(t);
    lemma_trim_start_shape(s);
    lemma_trim_end_shape(t);
    if u.len() > 0 {
        assert(u[0] == t[0]);
    }
    assert(trim_start(u) == u);
    assert(trim_end(u) == u);
}

/// Every entry of the vocabulary hint is a custom word that is not empty and
/// carries no surrounding white space.
pub proof fn lemma_prompt_words_trimmed(words: Seq<Seq<char>>)
    ensures
        forall|i: int|
            0 <= i < prompt_words(words).len() ==> {
                &&& (#[trigger] prompt_words(words)[i]).len() > 0
                &&& trim(prompt_words(words)[i]) == prompt_words(words)[i]
            },
    decreases words.len(),
{
    if words.len() > 0 {
        let rest = prompt_words(words.drop_last());
        let w = trim(words.last());
        lemma_prompt_words_trimmed(words.drop_last());
        lemma_trim_idempotent(words.last());
        assert forall|i: int| 0 <= i < prompt_words(words).len() implies {
            &&& (#[trigger] prompt_words(words)[i]).len() > 0
            &&& trim(prompt_words(words)[i]) == prompt_words(words)[i]
        } by {
            if w.len() != 0 && i == rest.len() {
                assert(prompt_words(words)[i] == w);
            } else {
                assert(prompt_words(words)[i] == rest[i]);
            }
        }
    }
}

proof fn lemma_scheme_prefix_is_http(base: Seq<char>)
    requires
        starts_with(base, "http://"@) || starts_with(base, "https://"@),
    ensures
        starts_with(base, "http"@),
{
    reveal_strlit("http://");
    reveal_strlit("https://");
    reveal_strlit("http");
    assert(base.subrange(0, 4) =~= "http"@) by {
        if starts_with(base, "http://"@) {
            assert(base.subrange(0, 7) == "http://"@);
            assert forall|i: int| 0 <= i < 4 implies base.subrange(0, 4)[i] == "http"@[i] by {
                assert(base.subrange(0, 4)[i] == base.subrange(0, 7)[i]);
            }
        } else {
            assert(base.subrange(0, 8) == "https://"@);
            assert forall|i: int| 0 <= i < 4 implies base.subrange(0, 4)[i] == "http"@[i] by {
                assert(base.subrange(0, 4)[i] == base.subrange(0, 8)[i]);
            }
        }
    }
}

/// A provider whose base URL is a plain `http://` or an `https://` URL (a
/// self-hosted gateway as well as a hosted API) is never refused for lacking
/// an HTTP endpoint: with a model and a usable key set, a request is made,
/// and it goes to that base URL without its trailing slashes followed by
/// "/audio/transcriptions".
pub proof fn lemma_http_base_url_is_accepted(
    s: CloudSttSettings,
    samples: Seq<i16>,
    language: Option<Seq<char>>,
)
    requires
        trim(s.cloud_stt_provider_id@).len() > 0,
        has_provider(s.post_process_providers@, trim(s.cloud_stt_provider_id@)),
        ({
            let p = provider_with_id(s.post_process_providers@, trim(s.cloud_stt_provider_id@));
            let key = api_key_for(s.post_process_api_keys@, p.id@);
            &&& starts_with(p.base_url@, "http://"@) || starts_with(p.base_url@, "https://"@)
            &&& trim(key).len() > 0
            &&& header_value_ok(bearer(key))
        }),
        trim(s.cloud_stt_model@).len() > 0,
        samples.len() <= MAX_WAV_SAMPLES,
    ensures
        transcription_error(s, samples.len()) is None,
        ({
            let p = provider_with_id(s.post_process_providers@, trim(s.cloud_stt_provider_id@));
            transcription_request(s, samples, language).url == trim_end_slashes(p.base_url@)
                + "/audio/transcriptions"@
        }),
{
    let p = provider_with_id(s.post_process_providers@, trim(s.cloud_stt_provider_id@));
    lemma_scheme_prefix_is_http(p.base_url@);
}

} // verus!
