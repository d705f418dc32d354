//! Chinese-to-English lookup: a local dictionary first, then, when asked
//! for, a remote chat-completion service.

use vstd::prelude::*;
use vstd::string::*;

use crate::text::{contains_seq, contains_text, same_text};

verus! {

/// The map that a list of (English, Chinese) entries stands for; a later
/// entry for a word replaces an earlier one.
pub open spec fn entries_map(s: Seq<(String, String)>) -> Map<Seq<char>, Seq<char>>
    decreases s.len(),
{
    if s.len() == 0 {
        Map::empty()
    } else {
        entries_map(s.drop_last()).insert(s.last().0@, s.last().1@)
    }
}

/// No English word is listed twice.
pub open spec fn keys_unique(s: Seq<(String, String)>) -> bool {
    forall|i: int, j: int| 0 <= i < j < s.len() ==> s[i].0@ != s[j].0@
}

proof fn lemma_entries_dom(s: Seq<(String, String)>, k: Seq<char>)
    ensures
        entries_map(s).contains_key(k) <==> exists|i: int| 0 <= i < s.len() && s[i].0@ == k,
    decreases s.len(),
{
    if s.len() > 0 {
        lemma_entries_dom(s.drop_last(), k);
        if entries_map(s).contains_key(k) && s.last().0@ != k {
            let i = choose|i: int| 0 <= i < s.len() - 1 && s.drop_last()[i].0@ == k;
            assert(s[i].0@ == k);
        }
        if exists|i: int| 0 <= i < s.len() && s[i].0@ == k {
            let i = choose|i: int| 0 <= i < s.len() && s[i].0@ == k;
            if i < s.len() - 1 {
                assert(s.drop_last()[i].0@ == k);
            }
        }
    }
}

proof fn lemma_entries_value(s: Seq<(String, String)>, i: int)
    requires
        keys_unique(s),
        0 <= i < s.len(),
    ensures
        entries_map(s).contains_key(s[i].0@),
        entries_map(s)[s[i].0@] == s[i].1@,
    decreases s.len(),
{
    if i < s.len() - 1 {
        lemma_entries_value(s.drop_last(), i);
        assert(s.drop_last()[i] == s[i]);
    }
}

proof fn lemma_entries_update(s: Seq<(String, String)>, i: int, t: Seq<(String, String)>)
    requires
        keys_unique(s),
        0 <= i < s.len(),
        t == s.update(i, t[i]),
        t[i].0@ == s[i].0@,
    ensures
        keys_unique(t),
        entries_map(t) == entries_map(s).insert(t[i].0@, t[i].1@),
{
    let k = t[i].0@;
    let m = entries_map(s).insert(k, t[i].1@);
    assert(keys_unique(t)) by {
        assert forall|a: int, b: int| 0 <= a < b < t.len() implies t[a].0@ != t[b].0@ by {
            assert(t[a].0@ == s[a].0@);
            assert(t[b].0@ == s[b].0@);
        }
    }
    assert forall|w: Seq<char>| #[trigger] entries_map(t).contains_key(w) == m.contains_key(w) by {
        lemma_entries_dom(t, w);
        lemma_entries_dom(s, w);
        if exists|j: int| 0 <= j < s.len() && s[j].0@ == w {
            let j = choose|j: int| 0 <= j < s.len() && s[j].0@ == w;
            assert(t[j].0@ == w);
        }
        if exists|j: int| 0 <= j < t.len() && t[j].0@ == w {
            let j = choose|j: int| 0 <= j < t.len() && t[j].0@ == w;
            assert(s[j].0@ == w);
        }
    }
    assert forall|w: Seq<char>| #[trigger] entries_map(t).contains_key(w) implies entries_map(t)[w]
        == m[w] by {
        lemma_entries_dom(t, w);
        let j = choose|j: int| 0 <= j < t.len() && t[j].0@ == w;
        lemma_entries_value(t, j);
        if j != i {
            assert(t[j] == s[j]);
            lemma_entries_value(s, j);
        }
    }
    assert(entries_map(t) =~= m);
}

/// An English-to-Chinese dictionary with each English word once.
///
/// The entries are kept in a `Vec` whose words are unique, rather than in
/// a `HashMap<String, String>`: vstd's contracts for `HashMap::insert` and
/// `get` hold only for key types that satisfy `obeys_key_model`, which
/// vstd establishes for integer and `bool` keys but not for `String`.
/// The list is proved against the map it stands for, `entries_map`.
pub struct Dictionary {
    entries: Vec<(String, String)>,
}

impl View for Dictionary {
    type V = Map<Seq<char>, Seq<char>>;

    closed spec fn view(&self) -> Map<Seq<char>, Seq<char>> {
        entries_map(self.entries@)
    }
}

impl Dictionary {
    /// The English words are listed once each.
    pub closed spec fn wf(&self) -> bool {
        keys_unique(self.entries@)
    }

    /// An empty dictionary.
    pub fn new() -> (r: Dictionary)
        ensures
            r.wf(),
            r@ == Map::<Seq<char>, Seq<char>>::empty(),
    {
        Dictionary { entries: Vec::new() }
    }

    /// The number of English words.
    pub fn len(&self) -> (r: usize)
        requires
            self.wf(),
        ensures
            r == self@.len(),
    {
        proof {
            self.lemma_len();
        }
        self.entries.len()
    }

    proof fn lemma_len(&self)
        requires
            self.wf(),
        ensures
            self@.len() == self.entries@.len(),
            self@.dom().finite(),
    {
        let s = self.entries@;
        let keys = s.map_values(|e: (String, String)| e.0@);
        assert forall|k| #[trigger] self@.contains_key(k) <==> keys.contains(k) by {
            lemma_entries_dom(s, k);
            if self@.contains_key(k) {
                let i = choose|i: int| 0 <= i < s.len() && s[i].0@ == k;
                assert(keys[i] == k);
            }
        }
        assert(self@.dom() =~= keys.to_set());
        assert(keys.no_duplicates()) by {
            assert forall|i: int, j: int| 0 <= i < keys.len() && 0 <= j < keys.len() && i != j
                implies keys[i] != keys[j] by {
                if i < j {
                } else {
                }
            }
        }
        keys.unique_seq_to_set();
    }

    /// Adds or replaces the Chinese text of `english`.
    pub fn insert(&mut self, english: String, chinese: String)
        requires
            old(self).wf(),
        ensures
            final(self).wf(),
            final(self)@ == old(self)@.insert(english@, chinese@),
    {
        let ghost s = self.entries@;
        let mut i: usize = 0;
        while i < self.entries.len()
            invariant
                self.entries@ == s,
                old(self).entries@ == s,
                keys_unique(s),
                i <= s.len(),
                forall|k: int| 0 <= k < i ==> s[k].0@ != english@,
            decreases s.len() - i,
        {
            if same_text(self.entries[i].0.as_str(), english.as_str()) {
                self.entries.set(i, (english, chinese));
                proof {
                    lemma_entries_update(s, i as int, self.entries@);
                }
                return;
            }
            i = i + 1;
        }
        self.entries.push((english, chinese));
        proof {
            let t = self.entries@;
            assert(t.drop_last() =~= s);
        }
    }

    /// Adds each of `entries` in order: an entry replaces what the
    /// dictionary held for its word, and a later entry an earlier one.
    pub fn merge(&mut self, entries: &Vec<(String, String)>)
        requires
            old(self).wf(),
        ensures
            final(self).wf(),
            final(self)@ == old(self)@.union_prefer_right(entries_map(entries@)),
    {
        let mut i: usize = 0;
        while i < entries.len()
            invariant
                self.wf(),
                i <= entries@.len(),
                self@ == old(self)@.union_prefer_right(
                    entries_map(entries@.subrange(0, i as int)),
                ),
            decreases entries@.len() - i,
        {
            let ghost e = entries@[i as int];
            self.insert(entries[i].0.clone(), entries[i].1.clone());
            proof {
                let pre = entries@.subrange(0, i + 1);
                assert(pre.drop_last() =~= entries@.subrange(0, i as int));
                assert(pre.last() == e);
                assert(self@ =~= old(self)@.union_prefer_right(entries_map(pre)));
            }
            i = i + 1;
        }
        assert(entries@.subrange(0, entries@.len() as int) =~= entries@);
    }

    /// An English word whose Chinese text contains `text`, if there is one.
    pub fn find_translation(&self, text: &str) -> (r: Option<String>)
        requires
            self.wf(),
        ensures
            r is None <==> forall|e: Seq<char>|
                #[trigger] self@.contains_key(e) ==> !contains_seq(self@[e], text@),
            r matches Some(e) ==> self@.contains_key(e@) && contains_seq(self@[e@], text@),
    {
        let mut i: usize = 0;
        while i < self.entries.len()
            invariant
                keys_unique(self.entries@),
                i <= self.entries@.len(),
                forall|k: int| 0 <= k < i ==> !contains_seq(self.entries@[k].1@, text@),
            decreases self.entries@.len() - i,
        {
            if contains_text(self.entries[i].1.as_str(), text) {
                proof {
                    lemma_entries_value(self.entries@, i as int);
                    assert(self@.contains_key(self.entries@[i as int].0@));
                }
                return Some(self.entries[i].0.clone());
            }
            i = i + 1;
        }
        proof {
            assert forall|e: Seq<char>| #[trigger] self@.contains_key(e) implies !contains_seq(
                self@[e],
                text@,
            ) by {
                lemma_entries_dom(self.entries@, e);
                let k = choose|k: int| 0 <= k < self.entries@.len() && self.entries@[k].0@ == e;
                lemma_entries_value(self.entries@, k);
            }
        }
        None
    }

    /// The Chinese text of `english`, if the dictionary has the word.
    pub fn get(&self, english: &str) -> (r: Option<String>)
        requires
            self.wf(),
        ensures
            r is None <==> !self@.contains_key(english@),
            r matches Some(v) ==> self@[english@] == v@,
    {
        let mut i: usize = 0;
        while i < self.entries.len()
            invariant
                keys_unique(self.entries@),
                i <= self.entries@.len(),
                forall|k: int| 0 <= k < i ==> self.entries@[k].0@ != english@,
            decreases self.entries@.len() - i,
        {
            if same_text(self.entries[i].0.as_str(), english) {
                proof {
                    lemma_entries_value(self.entries@, i as int);
                }
                return Some(self.entries[i].1.clone());
            }
            i = i + 1;
        }
        proof {
            lemma_entries_dom(self.entries@, english@);
        }
        None
    }
}

/// Why a translation could not be had.
#[derive(Debug, PartialEq, Eq)]
pub enum TranslateError {
    /// The dictionary has no entry for the text, and the service was not
    /// to be asked; holds the text.
    NotFound(String),
    /// The service cannot be asked without an API key.
    MissingApiKey,
    /// The service answered with a status outside 2xx; holds the status
    /// and the body of the answer.
    ApiFailed(u16, String),
    /// The service's answer was not a chat completion; holds why it could
    /// not be read.
    MalformedReply(String),
    /// The request could not be sent or its answer not received; holds
    /// the cause.
    TransportError(String),
    /// The service's answer held no choice.
    NoTranslation,
}

/// Where a translation comes from.
#[derive(Debug, PartialEq, Eq)]
pub enum Translation {
    /// The English word found in the dictionary.
    Local(String),
    /// The dictionary has none; the remote service is to be asked.
    Remote,
}

/// Looks `text` up in the dictionary; where it is not there, either the
/// remote service is to be asked (`use_ai`) or the lookup fails.
pub fn translate(dictionary: &Dictionary, text: &str, use_ai: bool) -> (r: Result<
    Translation,
    TranslateError,
>)
    requires
        dictionary.wf(),
    ensures
        r matches Ok(Translation::Local(e)) ==> dictionary@.contains_key(e@) && contains_seq(
            dictionary@[e@],
            text@,
        ),
        r is Ok && r->Ok_0 is Local <==> exists|e: Seq<char>|
            #[trigger] dictionary@.contains_key(e) && contains_seq(dictionary@[e], text@),
        r == Ok::<Translation, TranslateError>(Translation::Remote) <==> use_ai && !(exists|
            e: Seq<char>,
        | #[trigger] dictionary@.contains_key(e) && contains_seq(dictionary@[e], text@)),
        r matches Err(err) ==> !use_ai && (err matches TranslateError::NotFound(t) && t@ == text@),
{
    match dictionary.find_translation(text) {
        Some(english) => Ok(Translation::Local(english)),
        None => {
            if use_ai {
                Ok(Translation::Remote)
            } else {
                Err(TranslateError::NotFound(String::from_str(text)))
            }
        },
    }
}

/// The service endpoint used when none is configured.
pub open spec fn default_base_url() -> Seq<char> {
    "https://api.openai.com/v1/"@
}

/// The model used when none is configured.
pub open spec fn default_model() -> Seq<char> {
    "gpt-3.5-turbo"@
}

/// The instruction sent ahead of the text.
pub open spec fn system_prompt() -> Seq<char> {
    "You are a professional translator. Translate the following Chinese text to English."@
}

/// One message of a chat: its role and its text.
pub struct ChatMessage {
    pub role: String,
    pub content: String,
}

/// The body of a chat-completion request.
pub struct ChatRequest {
    pub model: String,
    pub messages: Vec<ChatMessage>,
}

/// A chat-completion request for the driver to POST as JSON.
pub struct ChatCall {
    pub url: String,
    /// Header names and values, in order.
    pub headers: Vec<(String, String)>,
    pub body: ChatRequest,
}

/// The remote translation service: where it is, how to authenticate, and
/// which model to ask.
pub struct AITranslationService {
    pub api_key: String,
    pub base_url: String,
    pub model: String,
}

impl AITranslationService {
    /// Sets up the service from the configured values: the key is
    /// required; the endpoint and the model have defaults.
    pub fn new(api_key: Option<String>, base_url: Option<String>, model: Option<String>) -> (r:
        Result<AITranslationService, TranslateError>)
        ensures
            api_key is None <==> r == Err::<AITranslationService, TranslateError>(
                TranslateError::MissingApiKey,
            ),
            api_key is Some <==> r is Ok,
            r matches Ok(s) ==> api_key == Some(s.api_key) && s.base_url@ == (match base_url {
                Some(u) => u@,
                None => default_base_url(),
            }) && s.model@ == (match model {
                Some(m) => m@,
                None => default_model(),
            }),
    {
        let api_key = match api_key {
            Some(k) => k,
            None => {
                return Err(TranslateError::MissingApiKey);
            },
        };
        let base_url = match base_url {
            Some(u) => u,
            None => String::from_str("https://api.openai.com/v1/"),
        };
        let model = match model {
            Some(m) => m,
            None => String::from_str("gpt-3.5-turbo"),
        };
        Ok(AITranslationService { api_key, base_url, model })
    }

    /// The request that asks the service to translate `text`: a system
    /// instruction, then the text as the user's message.
    pub fn chat_request(&self, text: &str) -> (r: ChatCall)
        ensures
            r.url@ == self.base_url@ + "chat/completions"@,
            r.headers@.len() == 2,
            r.headers@[0].0@ == "Authorization"@,
            r.headers@[0].1@ == "Bearer "@ + self.api_key@,
            r.headers@[1].0@ == "Content-Type"@,
            r.headers@[1].1@ == "application/json"@,
            r.body.model@ == self.model@,
            r.body.messages@.len() == 2,
            r.body.messages@[0].role@ == "system"@,
            r.body.messages@[0].content@ == system_prompt(),
            r.body.messages@[1].role@ == "user"@,
            r.body.messages@[1].content@ == text@,
    {
        let mut url = self.base_url.clone();
        url.append("chat/completions");
        let mut bearer = String::from_str("Bearer ");
        bearer.append(self.api_key.as_str());
        let mut headers: Vec<(String, String)> = Vec::new();
        headers.push((String::from_str("Authorization"), bearer));
        headers.push((String::from_str("Content-Type"), String::from_str("application/json")));
        let mut messages: Vec<ChatMessage> = Vec::new();
        messages.push(
            ChatMessage {
                role: String::from_str("system"),
                content: String::from_str(
                    "You are a professional translator. Translate the following Chinese text to English.",
                ),
            },
        );
        messages.push(ChatMessage { role: String::from_str("user"), content: String::from_str(text) });
        ChatCall { url, headers, body: ChatRequest { model: self.model.clone(), messages } }
    }
}

/// Reads the service's answer: `status` and `body` as received, and
/// `contents` the message text of each choice, or why the body is
/// not a chat completion. The translation is the first choice's text.
pub fn read_reply(status: u16, body: String, contents: Result<Vec<String>, String>) -> (r: Result<
    String,
    TranslateError,
>)
    ensures
        !(200 <= status <= 299) ==> r == Err::<String, TranslateError>(
            TranslateError::ApiFailed(status, body),
        ),
        200 <= status <= 299 ==> r == match contents {
            Err(why) => Err(TranslateError::MalformedReply(why)),
            Ok(c) => if c@.len() == 0 {
                Err(TranslateError::NoTranslation)
            } else {
                Ok(c@[0])
            },
        },
{
    if status < 200 || status > 299 {
        return Err(TranslateError::ApiFailed(status, body));
    }
    match contents {
        Err(why) => Err(TranslateError::MalformedReply(why)),
        Ok(c) => {
            if c.len() == 0 {
                Err(TranslateError::NoTranslation)
            } else {
                Ok(c[0].clone())
            }
        },
    }
}

} // verus!
