use vstd::prelude::*;

use crate::errors::Error;
use crate::logger::Level;
use crate::logger::Log;
use crate::logger::Logger;
use crate::message::Message;
use crate::random::lemma_total_nonneg;
use crate::random::total_weight;
use crate::random::WeightVec;
use crate::search::chars_vec;
use crate::search::no_match_before;
use crate::search::spec_matches_any;
use crate::search::string_of_chars;
use crate::search::Search;
use crate::stored::Stored;

verus! {

/// The Unicode White_Space characters: the set that trimming a string's ends
/// removes. This is wider than the four characters that search normalization
/// skips.
pub open spec fn is_white_space(c: char) -> bool {
    c == '\u{9}' || c == '\u{a}' || c == '\u{b}' || c == '\u{c}' || c == '\u{d}' || c == ' '
        || c == '\u{85}' || c == '\u{a0}' || c == '\u{1680}' || c == '\u{2000}' || c
        == '\u{2001}' || c == '\u{2002}' || c == '\u{2003}' || c == '\u{2004}' || c == '\u{2005}'
        || c == '\u{2006}' || c == '\u{2007}' || c == '\u{2008}' || c == '\u{2009}' || c
        == '\u{200a}' || c == '\u{2028}' || c == '\u{2029}' || c == '\u{202f}' || c == '\u{205f}'
        || c == '\u{3000}'
}

fn white_space(c: char) -> (r: bool)
    ensures
        r == is_white_space(c),
{
    c == '\u{9}' || c == '\u{a}' || c == '\u{b}' || c == '\u{c}' || c == '\u{d}' || c == ' '
        || c == '\u{85}' || c == '\u{a0}' || c == '\u{1680}' || c == '\u{2000}' || c
        == '\u{2001}' || c == '\u{2002}' || c == '\u{2003}' || c == '\u{2004}' || c == '\u{2005}'
        || c == '\u{2006}' || c == '\u{2007}' || c == '\u{2008}' || c == '\u{2009}' || c
        == '\u{200a}' || c == '\u{2028}' || c == '\u{2029}' || c == '\u{202f}' || c == '\u{205f}'
        || c == '\u{3000}'
}

/// The text with its leading white space removed.
pub open spec fn drop_leading_spaces(s: Seq<char>) -> Seq<char>
    decreases s.len(),
{
    if s.len() > 0 && is_white_space(s[0]) {
        drop_leading_spaces(s.drop_first())
    } else {
        s
    }
}

/// The text with its trailing white space removed.
pub open spec fn drop_trailing_spaces(s: Seq<char>) -> Seq<char>
    decreases s.len(),
{
    if s.len() > 0 && is_white_space(s.last()) {
        drop_trailing_spaces(s.drop_last())
    } else {
        s
    }
}

/// The text with every Unicode White_Space character removed from both ends.
pub open spec fn spec_trim(s: Seq<char>) -> Seq<char> {
    drop_trailing_spaces(drop_leading_spaces(s))
}

fn trim_chars(v: Vec<char>) -> (r: Vec<char>)
    ensures
        r@ == spec_trim(v@),
{
    let ghost orig = v@;
    let mut v = v;
    while v.len() > 0 && white_space(v[0])
        invariant
            drop_leading_spaces(v@) == drop_leading_spaces(orig),
        decreases v@.len(),
    {
        v.remove(0);
    }
    let ghost led = v@;
    proof {
        assert(drop_leading_spaces(v@) == v@);
    }
    while v.len() > 0 && white_space(v[v.len() - 1])
        invariant
            drop_trailing_spaces(v@) == drop_trailing_spaces(led),
            led == drop_leading_spaces(orig),
        decreases v@.len(),
    {
        let ghost before = v@;
        v.pop();
        proof {
            assert(v@ =~= before.drop_last());
        }
    }
    proof {
        assert(drop_trailing_spaces(v@) == v@);
    }
    v
}

/// The reply text composed for a drawn response: the emoji, a space, the
/// text, a space, and the emoji again, with Unicode white space trimmed from
/// both ends (so a missing emoji leaves the trimmed text alone).
pub open spec fn spec_compose(text: Seq<char>, emoji: Option<char>) -> Seq<char> {
    match emoji {
        Some(c) => spec_trim(seq![c, ' '] + text + seq![' ', c]),
        None => spec_trim(seq![' '] + text + seq![' ']),
    }
}

/// Composes the outbound reply for a drawn response.
pub fn compose_reply(text: &str, emoji: Option<char>) -> (r: String)
    ensures
        r@ == spec_compose(text@, emoji),
{
    let mut v: Vec<char> = Vec::new();
    match emoji {
        Some(c) => {
            v.push(c);
            v.push(' ');
        },
        None => {
            v.push(' ');
        },
    }
    let mut tv = chars_vec(text);
    v.append(&mut tv);
    v.push(' ');
    if let Some(c) = emoji {
        v.push(c);
    }
    proof {
        match emoji {
            Some(c) => {
                assert(v@ =~= seq![c, ' '] + text@ + seq![' ', c]);
            },
            None => {
                assert(v@ =~= seq![' '] + text@ + seq![' ']);
            },
        }
    }
    let trimmed = trim_chars(v);
    string_of_chars(&trimmed)
}

/// The event handler: it owns the logger and decides, for each inbound
/// message, what the react-kind and reply-kind pipelines answer.
#[derive(Clone, Debug)]
pub struct Events {
    pub logger: Logger,
}

impl Events {
    pub fn new(logger: Logger) -> (r: Self)
        ensures
            r.logger == logger,
    {
        Events { logger }
    }

    /// An informational entry from the handler's logger.
    pub fn info(&self, content: String) -> (r: Option<Log>)
        ensures
            (r is Some) <==> !self.logger.quiet,
            r matches Some(l) ==> l.level == Level::Info && l.text == content,
    {
        self.logger.info(content)
    }

    /// A warning entry from the handler's logger.
    pub fn warn(&self, content: String) -> (r: Option<Log>)
        ensures
            (r is Some) <==> !self.logger.quiet,
            r matches Some(l) ==> l.level == Level::Warn && l.text == content,
    {
        self.logger.warn(content)
    }

    /// An error entry from the handler's logger.
    pub fn error(&self, content: String) -> (r: Option<Log>)
        ensures
            (r is Some) <==> !self.logger.quiet,
            r matches Some(l) ==> l.level == Level::Error && l.text == content,
    {
        self.logger.error(content)
    }

    /// The react-kind pipeline for one inbound message, over the trigger list
    /// and response pool read for the "react" namespace: nothing for a bot
    /// author or when no trigger matches; otherwise the first matching
    /// trigger together with an emoji drawn from the pool, or `EmptyPool`
    /// when the pool's weights sum to zero. The caller attaches the emoji as
    /// a reaction.
    pub fn search_react(
        &self,
        message: &Message,
        triggers: &Stored<Vec<String>>,
        responses: &Stored<WeightVec<char>>,
    ) -> (r: Result<Option<(String, char)>, Error>)
        ensures
            message.author.bot ==> (r matches Ok(o) && o is None),
            !message.author.bot ==> ({
                let ts = triggers.value.deep_view();
                let pool = responses.value.0@;
                match r {
                    Ok(None) => no_match_before(message.facets(), ts, ts.len() as int, true, true),
                    Ok(Some(p)) => (exists|k: int|
                        0 <= k < ts.len() && p.0@ == #[trigger] ts[k] && spec_matches_any(
                            message.facets(),
                            ts[k],
                            true,
                            true,
                        ) && no_match_before(message.facets(), ts, k, true, true)) && total_weight(
                        pool,
                    ) > 0 && (exists|i: int|
                        0 <= i < pool.len() && #[trigger] pool[i].0 == p.1),
                    Err(e) => e == Error::EmptyPool && total_weight(pool) == 0 && (exists|k: int|
                        0 <= k < ts.len() && spec_matches_any(
                            message.facets(),
                            #[trigger] ts[k],
                            true,
                            true,
                        )),
                }
            }),
    {
        if message.author.bot {
            return Ok(None);
        }
        match message.search(&triggers.value, true, true) {
            None => Ok(None),
            Some(word) => {
                proof {
                    lemma_total_nonneg(responses.value.0@);
                }
                match responses.value.get() {
                    None => Err(Error::EmptyPool),
                    Some(c) => Ok(Some((word, *c))),
                }
            },
        }
    }

    /// The reply-kind pipeline for one inbound message, over the trigger list
    /// and response pool read for the "reply" namespace: nothing for a bot
    /// author or when no trigger matches; otherwise the first matching
    /// trigger together with the reply composed from a drawn response, or
    /// `EmptyPool` when the pool's weights sum to zero. The caller sends the
    /// composed text as a reply to the message.
    pub fn search_reply(
        &self,
        message: &Message,
        triggers: &Stored<Vec<String>>,
        responses: &Stored<WeightVec<(String, Option<char>)>>,
    ) -> (r: Result<Option<(String, String)>, Error>)
        ensures
            message.author.bot ==> (r matches Ok(o) && o is None),
            !message.author.bot ==> ({
                let ts = triggers.value.deep_view();
                let pool = responses.value.0@;
                match r {
                    Ok(None) => no_match_before(message.facets(), ts, ts.len() as int, true, true),
                    Ok(Some(p)) => (exists|k: int|
                        0 <= k < ts.len() && p.0@ == #[trigger] ts[k] && spec_matches_any(
                            message.facets(),
                            ts[k],
                            true,
                            true,
                        ) && no_match_before(message.facets(), ts, k, true, true)) && total_weight(
                        pool,
                    ) > 0 && (exists|i: int|
                        0 <= i < pool.len() && p.1@ == spec_compose(
                            (#[trigger] pool[i].0).0@,
                            pool[i].0.1,
                        )),
                    Err(e) => e == Error::EmptyPool && total_weight(pool) == 0 && (exists|k: int|
                        0 <= k < ts.len() && spec_matches_any(
                            message.facets(),
                            #[trigger] ts[k],
                            true,
                            true,
                        )),
                }
            }),
    {
        if message.author.bot {
            return Ok(None);
        }
        match message.search(&triggers.value, true, true) {
            None => Ok(None),
            Some(word) => {
                proof {
                    lemma_total_nonneg(responses.value.0@);
                }
                match responses.value.get() {
                    None => Err(Error::EmptyPool),
                    Some(drawn) => {
                        let out = compose_reply(drawn.0.as_str(), drawn.1);
                        Ok(Some((word, out)))
                    },
                }
            },
        }
    }
}

} // verus!
