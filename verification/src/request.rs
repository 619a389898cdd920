//! Building the outbound requests the poller sends.
//!
//! The update-fetch request has a fixed JSON shape carrying the client
//! version and the continuation cursor, and a fixed endpoint URL carrying the
//! access key; the resolution step fetches the session's canonical page URL.
//! The bodies and URLs are built here, exactly specified; sending them is the
//! caller's business.

use vstd::prelude::*;
use crate::chat::{MetaView, StreamChatMetadata};

verus! {

/// How one character is written inside a JSON string literal: quote and
/// backslash are escaped, every other character stands as itself.
pub open spec fn escape_char(c: char) -> Seq<char> {
    if c == '"' {
        seq!['\\', '"']
    } else if c == '\\' {
        seq!['\\', '\\']
    } else {
        seq![c]
    }
}

/// A string as written inside a JSON string literal, character by character.
pub open spec fn json_escape(s: Seq<char>) -> Seq<char>
    decreases s.len(),
{
    if s.len() == 0 {
        Seq::empty()
    } else {
        escape_char(s[0]) + json_escape(s.drop_first())
    }
}

/// Escaping distributes over concatenation.
pub proof fn lemma_json_escape_concat(a: Seq<char>, b: Seq<char>)
    ensures
        json_escape(a + b) == json_escape(a) + json_escape(b),
    decreases a.len(),
{
    if a.len() == 0 {
        assert(a + b =~= b);
        assert(json_escape(a) + json_escape(b) =~= json_escape(b));
    } else {
        lemma_json_escape_concat(a.drop_first(), b);
        assert((a + b).drop_first() =~= a.drop_first() + b);
        assert(escape_char(a[0]) + (json_escape(a.drop_first()) + json_escape(b)) =~= (escape_char(
            a[0],
        ) + json_escape(a.drop_first())) + json_escape(b));
    }
}

/// Escapes `s` for inclusion in a JSON string literal.
pub fn json_escape_str(s: &str) -> (r: String)
    ensures
        r@ == json_escape(s@),
{
    let len = s.unicode_len();
    let mut out = String::new();
    let mut i: usize = 0;
    while i < len
        invariant
            i <= len,
            len == s@.len(),
            out@ == json_escape(s@.subrange(0, i as int)),
        decreases len - i,
    {
        let c = s.get_char(i);
        proof {
            lemma_json_escape_concat(s@.subrange(0, i as int), seq![s@[i as int]]);
            assert(s@.subrange(0, i as int) + seq![s@[i as int]] =~= s@.subrange(0, i + 1));
            assert(seq![s@[i as int]].drop_first() =~= Seq::<char>::empty());
            assert(json_escape(Seq::<char>::empty()) == Seq::<char>::empty());
            assert(json_escape(seq![s@[i as int]]) =~= escape_char(s@[i as int])
                + Seq::<char>::empty());
            assert(escape_char(s@[i as int]) + Seq::<char>::empty() =~= escape_char(s@[i as int]));
        }
        if c == '"' {
            out.append("\\\"");
            proof {
                reveal_strlit("\\\"");
                assert("\\\""@ =~= escape_char('"'));
            }
        } else if c == '\\' {
            out.append("\\\\");
            proof {
                reveal_strlit("\\\\");
                assert("\\\\"@ =~= escape_char('\\'));
            }
        } else {
            let piece = s.substring_char(i, i + 1);
            out.append(piece);
            proof {
                assert(s@.subrange(i as int, i + 1) =~= escape_char(s@[i as int]));
            }
        }
        proof {
            assert(out@ =~= json_escape(s@.subrange(0, i as int + 1)));
        }
        i += 1;
    }
    proof {
        assert(s@.subrange(0, len as int) =~= s@);
    }
    out
}

/// The JSON body of one update-fetch request: a fixed shape carrying the
/// client version and the continuation cursor from the session metadata.
pub open spec fn chat_request_body(m: MetaView) -> Seq<char> {
    "{\"context\":{\"client\":{\"clientVersion\":\""@ + json_escape(m.client_version)
        + "\",\"clientName\":\"WEB\"}},\"continuation\":\""@ + json_escape(m.continuation)
        + "\"}"@
}

/// Builds the JSON body of one update-fetch request.
pub fn build_chat_body(m: &StreamChatMetadata) -> (r: String)
    ensures
        r@ == chat_request_body(m@),
{
    let mut out = "{\"context\":{\"client\":{\"clientVersion\":\"".to_owned();
    let ver = json_escape_str(m.client_version.as_str());
    out.append(ver.as_str());
    out.append("\",\"clientName\":\"WEB\"}},\"continuation\":\"");
    let cont = json_escape_str(m.continuation.as_str());
    out.append(cont.as_str());
    out.append("\"}");
    proof {
        assert(out@ =~= chat_request_body(m@));
    }
    out
}

/// The update-fetch endpoint URL, carrying the access key as its query
/// parameter.
pub open spec fn chat_request_url(m: MetaView) -> Seq<char> {
    "https://www.youtube.com/youtubei/v1/live_chat/get_live_chat?key="@ + m.api_key
}

/// Builds the update-fetch endpoint URL for the session's access key.
pub fn build_chat_url(m: &StreamChatMetadata) -> (r: String)
    ensures
        r@ == chat_request_url(m@),
{
    let mut out = "https://www.youtube.com/youtubei/v1/live_chat/get_live_chat?key=".to_owned();
    out.append(m.api_key.as_str());
    out
}

/// The canonical page URL that a session id is resolved from.
pub open spec fn watch_page_url(vid: Seq<char>) -> Seq<char> {
    "https://www.youtube.com/watch?v="@ + vid
}

/// Builds the canonical page URL for a session id.
pub fn build_watch_url(video_id: &str) -> (r: String)
    ensures
        r@ == watch_page_url(video_id@),
{
    let mut out = "https://www.youtube.com/watch?v=".to_owned();
    out.append(video_id);
    out
}

} // verus!
