use vstd::prelude::*;
use vstd::string::*;

use crate::errors::Error;
use crate::message::PartialMember;
use crate::message::User;
use crate::search::str_eq;

pub mod react;
pub mod speak;

verus! {

/// The payload type a declared command option accepts.
#[derive(Clone, Copy, Debug, PartialEq, Eq, Structural)]
pub enum OptionType {
    Text,
    Flag,
}

/// One declared option of a slash command.
#[derive(Clone, Debug)]
pub struct OptionSpec {
    pub kind: OptionType,
    pub name: String,
    pub description: String,
    pub required: bool,
    pub max_length: Option<u16>,
}

/// The declaration of one slash command, as the platform registers it: its
/// name, its description, whether only administrators may call it, whether it
/// works in direct messages, and its options in order.
#[derive(Clone, Debug)]
pub struct CommandSpec {
    pub name: String,
    pub description: String,
    pub admin_only: bool,
    pub dm_permission: bool,
    pub options: Vec<OptionSpec>,
}

/// The typed payload of a resolved command option.
#[derive(Clone, Debug)]
pub enum OptValue {
    Bool(bool),
    Int(i64),
    Str(String),
    UserOpt(User, Option<PartialMember>),
}

/// One resolved command option: its name and its typed payload.
#[derive(Clone, Debug)]
pub struct ResolvedOpt {
    pub name: String,
    pub value: OptValue,
}

/// The payload of the first option carrying the wanted name, if any.
pub open spec fn spec_find(o: Seq<ResolvedOpt>, n: Seq<char>) -> Option<OptValue>
    decreases o.len(),
{
    if o.len() == 0 {
        None
    } else if o[0].name@ == n {
        Some(o[0].value)
    } else {
        spec_find(o.drop_first(), n)
    }
}

/// The user named by an option: the first option called `n` must exist and
/// carry a user payload, else the option set is invalid.
pub fn get_user<'c>(o: &'c Vec<ResolvedOpt>, n: &str) -> (r: Result<
    (&'c User, Option<&'c PartialMember>),
    Error,
>)
    ensures
        match spec_find(o@, n@) {
            Some(OptValue::UserOpt(u, m)) => r matches Ok(p) && *p.0 == u && (match m {
                Some(pm) => p.1 matches Some(q) && *q == pm,
                None => p.1 is None,
            }),
            _ => r matches Err(e) && e == Error::Validation,
        },
{
    let len = o.len();
    let mut i: usize = 0;
    proof {
        assert(o@.subrange(0, len as int) =~= o@);
    }
    while i < len
        invariant
            len == o@.len(),
            i <= len,
            spec_find(o@.subrange(i as int, len as int), n@) == spec_find(o@, n@),
        decreases len - i,
    {
        proof {
            assert(o@.subrange(i as int, len as int).drop_first() =~= o@.subrange(
                i + 1,
                len as int,
            ));
        }
        if str_eq(o[i].name.as_str(), n) {
            match &o[i].value {
                OptValue::UserOpt(u, m) => {
                    return Ok((u, m.as_ref()));
                },
                _ => {
                    return Err(Error::Validation);
                },
            }
        }
        i += 1;
    }
    Err(Error::Validation)
}

/// The text named by an option: the first option called `n` must exist and
/// carry a string payload, else the option set is invalid.
pub fn get_str<'c>(o: &'c Vec<ResolvedOpt>, n: &str) -> (r: Result<&'c str, Error>)
    ensures
        match spec_find(o@, n@) {
            Some(OptValue::Str(t)) => r matches Ok(s) && s@ == t@,
            _ => r matches Err(e) && e == Error::Validation,
        },
{
    let len = o.len();
    let mut i: usize = 0;
    proof {
        assert(o@.subrange(0, len as int) =~= o@);
    }
    while i < len
        invariant
            len == o@.len(),
            i <= len,
            spec_find(o@.subrange(i as int, len as int), n@) == spec_find(o@, n@),
        decreases len - i,
    {
        proof {
            assert(o@.subrange(i as int, len as int).drop_first() =~= o@.subrange(
                i + 1,
                len as int,
            ));
        }
        if str_eq(o[i].name.as_str(), n) {
            match &o[i].value {
                OptValue::Str(t) => {
                    return Ok(t.as_str());
                },
                _ => {
                    return Err(Error::Validation);
                },
            }
        }
        i += 1;
    }
    Err(Error::Validation)
}

/// The integer named by an option: the first option called `n` must exist
/// and carry an integer payload, else the option set is invalid.
pub fn get_i64(o: &Vec<ResolvedOpt>, n: &str) -> (r: Result<i64, Error>)
    ensures
        match spec_find(o@, n@) {
            Some(OptValue::Int(v)) => r matches Ok(x) && x == v,
            _ => r matches Err(e) && e == Error::Validation,
        },
{
    let len = o.len();
    let mut i: usize = 0;
    proof {
        assert(o@.subrange(0, len as int) =~= o@);
    }
    while i < len
        invariant
            len == o@.len(),
            i <= len,
            spec_find(o@.subrange(i as int, len as int), n@) == spec_find(o@, n@),
        decreases len - i,
    {
        proof {
            assert(o@.subrange(i as int, len as int).drop_first() =~= o@.subrange(
                i + 1,
                len as int,
            ));
        }
        if str_eq(o[i].name.as_str(), n) {
            match &o[i].value {
                OptValue::Int(v) => {
                    return Ok(*v);
                },
                _ => {
                    return Err(Error::Validation);
                },
            }
        }
        i += 1;
    }
    Err(Error::Validation)
}

/// The flag named by an option: the first option called `n` must exist and
/// carry a boolean payload, else the option set is invalid.
pub fn get_bool(o: &Vec<ResolvedOpt>, n: &str) -> (r: Result<bool, Error>)
    ensures
        match spec_find(o@, n@) {
            Some(OptValue::Bool(b)) => r matches Ok(x) && x == b,
            _ => r matches Err(e) && e == Error::Validation,
        },
{
    let len = o.len();
    let mut i: usize = 0;
    proof {
        assert(o@.subrange(0, len as int) =~= o@);
    }
    while i < len
        invariant
            len == o@.len(),
            i <= len,
            spec_find(o@.subrange(i as int, len as int), n@) == spec_find(o@, n@),
        decreases len - i,
    {
        proof {
            assert(o@.subrange(i as int, len as int).drop_first() =~= o@.subrange(
                i + 1,
                len as int,
            ));
        }
        if str_eq(o[i].name.as_str(), n) {
            match &o[i].value {
                OptValue::Bool(b) => {
                    return Ok(*b);
                },
                _ => {
                    return Err(Error::Validation);
                },
            }
        }
        i += 1;
    }
    Err(Error::Validation)
}

/// The tokens kept by their validity flags, in order.
pub open spec fn keep_valid(ts: Seq<Seq<char>>, valid: Seq<bool>) -> Seq<Seq<char>>
    decreases ts.len(),
{
    if ts.len() == 0 {
        Seq::empty()
    } else {
        let rest = keep_valid(ts.drop_last(), valid.drop_last());
        if valid.len() > 0 && valid.last() {
            rest.push(ts.last())
        } else {
            rest
        }
    }
}

/// The tokens with duplicates removed, keeping the first occurrence of each.
pub open spec fn dedup_first(s: Seq<Seq<char>>) -> Seq<Seq<char>>
    decreases s.len(),
{
    if s.len() == 0 {
        Seq::empty()
    } else {
        let rest = dedup_first(s.drop_last());
        if rest.contains(s.last()) {
            rest
        } else {
            rest.push(s.last())
        }
    }
}

/// At most the first twenty tokens.
pub open spec fn cap_twenty(s: Seq<Seq<char>>) -> Seq<Seq<char>> {
    if s.len() <= 20 {
        s
    } else {
        s.take(20)
    }
}

fn contains_string(r: &Vec<String>, x: &str) -> (b: bool)
    ensures
        b == r.deep_view().contains(x@),
{
    let len = r.len();
    let mut j: usize = 0;
    while j < len
        invariant
            len == r@.len(),
            j <= len,
            r.deep_view().len() == len,
            forall|t: int| 0 <= t < len ==> r.deep_view()[t] == r@[t]@,
            forall|t: int| 0 <= t < j ==> r.deep_view()[t] != x@,
        decreases len - j,
    {
        if str_eq(r[j].as_str(), x) {
            proof {
                assert(r.deep_view()[j as int] == x@);
            }
            return true;
        }
        j += 1;
    }
    false
}

/// The reaction tokens a "react" command keeps, given each token's validity
/// as the platform's emoji parser judged it: the invalid tokens dropped,
/// duplicates removed keeping the first occurrence, and at most twenty kept;
/// invalid when no token survives.
pub fn plan_reactions(tokens: &Vec<String>, valid: &Vec<bool>) -> (r: Result<Vec<String>, Error>)
    requires
        tokens@.len() == valid@.len(),
    ensures
        ({
            let planned = cap_twenty(dedup_first(keep_valid(tokens.deep_view(), valid@)));
            match r {
                Ok(v) => v.deep_view() == planned && planned.len() > 0,
                Err(e) => e == Error::Validation && planned.len() == 0,
            }
        }),
{
    let n = tokens.len();
    let mut out: Vec<String> = Vec::new();
    let mut i: usize = 0;
    proof {
        assert(tokens.deep_view().take(0) =~= Seq::<Seq<char>>::empty());
        assert(valid@.take(0) =~= Seq::<bool>::empty());
    }
    while i < n
        invariant
            n == tokens@.len(),
            n == valid@.len(),
            i <= n,
            tokens.deep_view().len() == n,
            forall|t: int| 0 <= t < n ==> tokens.deep_view()[t] == tokens@[t]@,
            out.deep_view() == dedup_first(
                keep_valid(tokens.deep_view().take(i as int), valid@.take(i as int)),
            ),
        decreases n - i,
    {
        let ghost dv = tokens.deep_view();
        let ghost kv_pre = keep_valid(dv.take(i as int), valid@.take(i as int));
        proof {
            assert(dv.take(i + 1).drop_last() =~= dv.take(i as int));
            assert(valid@.take(i + 1).drop_last() =~= valid@.take(i as int));
            assert(dv.take(i + 1).last() == dv[i as int]);
        }
        if valid[i] {
            proof {
                assert(keep_valid(dv.take(i + 1), valid@.take(i + 1)) == kv_pre.push(
                    dv[i as int],
                ));
                assert(kv_pre.push(dv[i as int]).drop_last() =~= kv_pre);
            }
            let ghost out_pre = out.deep_view();
            if !contains_string(&out, tokens[i].as_str()) {
                out.push(tokens[i].clone());
                proof {
                    assert(out.deep_view() =~= out_pre.push(dv[i as int]));
                }
            }
        } else {
            proof {
                assert(keep_valid(dv.take(i + 1), valid@.take(i + 1)) == kv_pre);
            }
        }
        i += 1;
    }
    proof {
        assert(tokens.deep_view().take(n as int) =~= tokens.deep_view());
        assert(valid@.take(n as int) =~= valid@);
    }
    let ghost full = dedup_first(keep_valid(tokens.deep_view(), valid@));
    if out.len() == 0 {
        proof {
            assert(full.len() == 0);
        }
        return Err(Error::Validation);
    }
    proof {
        assert(full.take(full.len() as int) =~= full);
    }
    while out.len() > 20
        invariant
            out.deep_view() == full.take(out@.len() as int),
            out@.len() <= full.len(),
            out@.len() >= 20 || out.deep_view() == full,
        decreases out@.len(),
    {
        let ghost before = out.deep_view();
        out.pop();
        proof {
            assert(out.deep_view() =~= before.drop_last());
            assert(full.take(out@.len() as int + 1).drop_last() =~= full.take(out@.len() as int));
        }
    }
    proof {
        if out@.len() >= 20 {
            assert(full.len() >= 20);
            if full.len() <= 20 {
                assert(full.take(20) =~= full);
            }
        } else {
            assert(out.deep_view() == full);
            assert(full.len() == out@.len());
        }
        assert(out.deep_view() == cap_twenty(full));
        assert(full.len() > 0);
    }
    Ok(out)
}

/// What a "speak" command sends: the required text under the `content`
/// option, and whether the `reply` flag asks for a reply to the latest
/// channel message (absent or malformed, the flag defaults to off). Invalid
/// when the text option is missing or not a string.
pub fn plan_speak(o: &Vec<ResolvedOpt>) -> (r: Result<(String, bool), Error>)
    ensures
        match spec_find(o@, "content"@) {
            Some(OptValue::Str(t)) => r matches Ok(p) && p.0@ == t@ && p.1 == (match spec_find(
                o@,
                "reply"@,
            ) {
                Some(OptValue::Bool(b)) => b,
                _ => false,
            }),
            _ => r matches Err(e) && e == Error::Validation,
        },
{
    let content = match get_str(o, "content") {
        Ok(s) => s.to_owned(),
        Err(e) => {
            return Err(e);
        },
    };
    let reply = match get_bool(o, "reply") {
        Ok(b) => b,
        Err(_) => false,
    };
    Ok((content, reply))
}

} // verus!
