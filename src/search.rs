//! Search: the messages of a channel whose content holds the query, letter
//! case aside.
use vstd::prelude::*;
use vstd::string::StringExecFns;
use crate::errors::CoreError;
use crate::ids::{ChannelId, MessageId};
use crate::message::{Message, MessageView};
use crate::pagination::{MAX_PAGE_LIMIT, offset_window, page_of};
use crate::repository::{MockMessageRepository, message_views};

verus! {

/// The lowercase form of a text, as `str::to_lowercase` gives it.
pub uninterp spec fn lower_of(s: Seq<char>) -> Seq<char>;

/// Relies on `str::to_lowercase`: the lowercase form of `s`, which depends on
/// the characters of `s` alone.
#[verifier::external_body]
pub(crate) fn lowercase(s: &str) -> (r: String)
    ensures
        r@ == lower_of(s@),
{
    s.to_lowercase()
}

/// `needle` occurs in `hay` as a run of consecutive characters.
pub open spec fn contains_run(hay: Seq<char>, needle: Seq<char>) -> bool {
    exists|i: int| 0 <= i <= hay.len() - needle.len() && #[trigger] hay.subrange(i, i + needle.len()) == needle
}

/// The records of a channel whose content holds the query, letter case
/// aside; `lowered_query` is the query in lowercase.
pub open spec fn matches_query(c: ChannelId, lowered_query: Seq<char>) -> spec_fn(
    MessageView,
) -> bool {
    |m: MessageView| m.channel_id == c && contains_run(lower_of(m.content), lowered_query)
}

/// The characters of `s`, in order.
fn chars_of(s: &str) -> (r: Vec<char>)
    ensures
        r@ == s@,
{
    let n = s.unicode_len();
    let mut out: Vec<char> = Vec::new();
    let mut i: usize = 0;
    while i < n
        invariant
            n == s@.len(),
            i <= n,
            out@ == s@.take(i as int),
        decreases n - i,
    {
        out.push(s.get_char(i));
        proof {
            assert(s@.take(i as int + 1) =~= s@.take(i as int).push(s@[i as int]));
        }
        i = i + 1;
    }
    proof {
        assert(s@.take(n as int) =~= s@);
    }
    out
}

/// Whether `needle` occurs in `hay` as a run of consecutive characters.
pub fn contains_text(hay: &str, needle: &str) -> (r: bool)
    ensures
        r == contains_run(hay@, needle@),
{
    let h = chars_of(hay);
    let n = chars_of(needle);
    if n.len() > h.len() {
        proof {
            assert forall|i: int| 0 <= i <= h@.len() - n@.len() implies #[trigger] hay@.subrange(
                i,
                i + needle@.len(),
            ) != needle@ by {}
        }
        return false;
    }
    let last = h.len() - n.len();
    let mut i: usize = 0;
    loop
        invariant
            h@ == hay@,
            n@ == needle@,
            n@.len() <= h@.len(),
            last == h@.len() - n@.len(),
            i <= last,
            forall|k: int| 0 <= k < i ==> #[trigger] hay@.subrange(k, k + needle@.len()) != needle@,
        decreases last - i,
    {
        let mut j: usize = 0;
        let mut same = true;
        while j < n.len()
            invariant
                h@ == hay@,
                n@ == needle@,
                i <= last,
                n@.len() <= h@.len(),
                last == h@.len() - n@.len(),
                last + n.len() == h.len(),
                j <= n@.len(),
                same == (forall|t: int| 0 <= t < j ==> h@[i + t] == n@[t]),
            decreases n@.len() - j,
        {
            if h[i + j] != n[j] {
                same = false;
            }
            j = j + 1;
        }
        if same {
            proof {
                assert(hay@.subrange(i as int, i + needle@.len()) =~= needle@);
            }
            return true;
        }
        proof {
            let t = choose|t: int| 0 <= t < n@.len() && h@[i + t] != n@[t];
            assert(hay@.subrange(i as int, i + needle@.len())[t] != needle@[t]);
        }
        if i == last {
            return false;
        }
        i = i + 1;
    }
}

/// A character that regular expressions give a meaning of its own.
pub open spec fn is_regex_meta(c: char) -> bool {
    c == '\\' || c == '.' || c == '+' || c == '*' || c == '?' || c == '(' || c == ')' || c
        == '|' || c == '[' || c == ']' || c == '{' || c == '}' || c == '^' || c == '$' || c
        == '#' || c == '-' || c == '/'
}

/// A regular expression that matches exactly the text `s`: each character
/// with a meaning of its own is preceded by a backslash.
pub open spec fn regex_literal(s: Seq<char>) -> Seq<char>
    decreases s.len(),
{
    if s.len() == 0 {
        Seq::empty()
    } else {
        regex_literal(s.drop_last()) + if is_regex_meta(s.last()) {
            seq!['\\', s.last()]
        } else {
            seq![s.last()]
        }
    }
}

/// The regular expression that matches exactly the text `q`, for stores that
/// search by pattern.
pub fn escape_regex(q: &str) -> (r: String)
    ensures
        r@ == regex_literal(q@),
{
    let n = q.unicode_len();
    let mut out = String::new();
    let mut i: usize = 0;
    proof {
        reveal_strlit("\\");
    }
    while i < n
        invariant
            n == q@.len(),
            i <= n,
            out@ == regex_literal(q@.take(i as int)),
            "\\"@ == seq!['\\'],
        decreases n - i,
    {
        let c = q.get_char(i);
        proof {
            assert(q@.take(i as int + 1).drop_last() =~= q@.take(i as int));
            assert(q@.take(i as int + 1).last() == c);
        }
        if c == '\\' || c == '.' || c == '+' || c == '*' || c == '?' || c == '(' || c == ')' || c
            == '|' || c == '[' || c == ']' || c == '{' || c == '}' || c == '^' || c == '$' || c
            == '#' || c == '-' || c == '/' {
            out.append("\\");
        }
        out.append(q.substring_char(i, i + 1));
        proof {
            assert(out@ =~= regex_literal(q@.take(i as int + 1)));
        }
        i = i + 1;
    }
    proof {
        assert(q@.take(n as int) =~= q@);
    }
    out
}

/// What a search returns for one message: its kind (always `message`), its
/// id, its channel and the start of its content.
#[derive(Debug, Clone)]
pub struct SearchHit {
    pub kind: String,
    pub message_id: MessageId,
    pub channel_id: ChannelId,
    pub snippet: String,
}

/// The longest snippet, in characters.
pub const SNIPPET_CHARS: usize = 200;

/// The first `SNIPPET_CHARS` characters of a content.
pub open spec fn snippet_of(content: Seq<char>) -> Seq<char> {
    if content.len() <= SNIPPET_CHARS {
        content
    } else {
        content.take(SNIPPET_CHARS as int)
    }
}

impl SearchHit {
    /// The hit for a message.
    pub fn from_message(m: &Message) -> (r: SearchHit)
        ensures
            r.kind@ == "message"@,
            r.message_id == m.id,
            r.channel_id == m.channel_id,
            r.snippet@ == snippet_of(m.content@),
    {
        let n = m.content.as_str().unicode_len();
        let end = if n <= SNIPPET_CHARS {
            n
        } else {
            SNIPPET_CHARS
        };
        let snippet = String::from_str(m.content.as_str().substring_char(0, end));
        proof {
            if n <= SNIPPET_CHARS {
                assert(m.content@.subrange(0, end as int) =~= m.content@);
            }
        }
        SearchHit { kind: String::from_str("message"), message_id: m.id, channel_id: m.channel_id, snippet }
    }
}

/// The hits for a page of messages, in the same order.
pub fn hits_of(page: &Vec<Message>) -> (r: Vec<SearchHit>)
    ensures
        r@.len() == page@.len(),
        forall|i: int|
            0 <= i < page@.len() ==> (#[trigger] r@[i]).kind@ == "message"@ && r@[i].message_id
                == page@[i].id && r@[i].channel_id == page@[i].channel_id && r@[i].snippet@
                == snippet_of(page@[i].content@),
{
    let mut out: Vec<SearchHit> = Vec::new();
    let mut i: usize = 0;
    while i < page.len()
        invariant
            i <= page@.len(),
            out@.len() == i,
            forall|k: int|
                0 <= k < i ==> (#[trigger] out@[k]).kind@ == "message"@ && out@[k].message_id
                    == page@[k].id && out@[k].channel_id == page@[k].channel_id
                    && out@[k].snippet@ == snippet_of(page@[k].content@),
        decreases page@.len() - i,
    {
        out.push(SearchHit::from_message(&page[i]));
        i = i + 1;
    }
    out
}

impl MockMessageRepository {
    /// The messages of a channel whose content holds `q`, letter case aside,
    /// newest first: `offset` (0 when absent) are passed over and at most
    /// `limit` (50 when absent) returned, with how many match. Never fails.
    pub fn search(
        &self,
        channel: &ChannelId,
        q: &str,
        limit: Option<u32>,
        offset: Option<u32>,
    ) -> (r: Result<(Vec<Message>, u64), CoreError>)
        ensures
            r matches Ok((page, total)) && message_views(page@) == page_of(
                self.records().filter(matches_query(*channel, lower_of(q@))),
                match offset {
                    Some(o) => o as int,
                    None => 0,
                },
                match limit {
                    Some(l) => l as int,
                    None => MAX_PAGE_LIMIT as int,
                },
            ) && total == self.records().filter(matches_query(*channel, lower_of(q@))).len(),
    {
        let (skip, take) = offset_window(limit, offset);
        let query = lowercase(q);
        let mut flags: Vec<bool> = Vec::new();
        let mut i: usize = 0;
        let n = self.len();
        while i < n
            invariant
                n == self.records().len(),
                i <= n,
                flags@.len() == i,
                query@ == lower_of(q@),
                forall|k: int|
                    0 <= k < i ==> flags@[k] == matches_query(*channel, lower_of(q@))(
                        self.records()[k],
                    ),
            decreases n - i,
        {
            let flag = self.matches_at(i, channel, &query);
            flags.push(flag);
            i = i + 1;
        }
        Ok(self.collect_page(&flags, Ghost(matches_query(*channel, lower_of(q@))), skip, take))
    }
}

} // verus!
