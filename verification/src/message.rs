use vstd::prelude::*;
use vstd::string::*;

use crate::search::lemma_matches_any_concat;
use crate::search::lemma_matches_any_singleton;
use crate::search::push_char;
use crate::search::spec_matches_any;
use crate::search::str_contains;
use crate::search::Search;

verus! {

/// The uppercase hexadecimal digit of a value below sixteen.
pub open spec fn hex_digit(n: int) -> char {
    if n == 0 {
        '0'
    } else if n == 1 {
        '1'
    } else if n == 2 {
        '2'
    } else if n == 3 {
        '3'
    } else if n == 4 {
        '4'
    } else if n == 5 {
        '5'
    } else if n == 6 {
        '6'
    } else if n == 7 {
        '7'
    } else if n == 8 {
        '8'
    } else if n == 9 {
        '9'
    } else if n == 10 {
        'A'
    } else if n == 11 {
        'B'
    } else if n == 12 {
        'C'
    } else if n == 13 {
        'D'
    } else if n == 14 {
        'E'
    } else {
        'F'
    }
}

/// A 24-bit colour value spelled as six uppercase hexadecimal digits.
pub open spec fn hex6(v: u32) -> Seq<char> {
    seq![
        hex_digit(((v as int) / 0x100000) % 16),
        hex_digit(((v as int) / 0x10000) % 16),
        hex_digit(((v as int) / 0x1000) % 16),
        hex_digit(((v as int) / 0x100) % 16),
        hex_digit(((v as int) / 0x10) % 16),
        hex_digit((v as int) % 16),
    ]
}

fn hex_digit_char(d: u32) -> (c: char)
    requires
        d < 16,
    ensures
        c == hex_digit(d as int),
{
    if d == 0 {
        '0'
    } else if d == 1 {
        '1'
    } else if d == 2 {
        '2'
    } else if d == 3 {
        '3'
    } else if d == 4 {
        '4'
    } else if d == 5 {
        '5'
    } else if d == 6 {
        '6'
    } else if d == 7 {
        '7'
    } else if d == 8 {
        '8'
    } else if d == 9 {
        '9'
    } else if d == 10 {
        'A'
    } else if d == 11 {
        'B'
    } else if d == 12 {
        'C'
    } else if d == 13 {
        'D'
    } else if d == 14 {
        'E'
    } else {
        'F'
    }
}

/// The six-digit uppercase hexadecimal spelling of a colour value, built from
/// its low 24 bits.
pub fn hex6_string(v: u32) -> (r: String)
    ensures
        r@ == hex6(v),
{
    let mut s = String::new();
    push_char(&mut s, hex_digit_char((v / 0x100000) % 16));
    push_char(&mut s, hex_digit_char((v / 0x10000) % 16));
    push_char(&mut s, hex_digit_char((v / 0x1000) % 16));
    push_char(&mut s, hex_digit_char((v / 0x100) % 16));
    push_char(&mut s, hex_digit_char((v / 0x10) % 16));
    push_char(&mut s, hex_digit_char(v % 16));
    proof {
        assert(s@ =~= hex6(v));
    }
    s
}

/// The textual identity of a message author: the account tag, the avatar
/// identifier, whether the account is a bot, and the optional accent colour.
#[derive(Clone, Debug)]
pub struct User {
    pub bot: bool,
    pub tag: String,
    pub face: String,
    pub accent_colour: Option<u32>,
}

/// The facets of an author's optional accent colour: its six-digit
/// hexadecimal spelling when present.
pub open spec fn accent_facets(accent: Option<u32>) -> Seq<Seq<char>> {
    match accent {
        Some(c) => seq![hex6(c % 0x1000000)],
        None => Seq::empty(),
    }
}

impl Search for User {
    open spec fn facets(&self) -> Seq<Seq<char>> {
        seq![self.tag@] + seq![self.face@] + accent_facets(self.accent_colour)
    }

    fn search_contains(&self, target: &str, any_case: bool, skip_spaces: bool) -> (r: bool) {
        let in_tag = str_contains(self.tag.as_str(), target, any_case, skip_spaces);
        let in_face = str_contains(self.face.as_str(), target, any_case, skip_spaces);
        let in_accent = match self.accent_colour {
            Some(c) => {
                let h = hex6_string(c % 0x1000000);
                str_contains(h.as_str(), target, any_case, skip_spaces)
            },
            None => false,
        };
        proof {
            lemma_matches_any_concat(
                seq![self.tag@] + seq![self.face@],
                accent_facets(self.accent_colour),
                target@,
                any_case,
                skip_spaces,
            );
            lemma_matches_any_concat(
                seq![self.tag@],
                seq![self.face@],
                target@,
                any_case,
                skip_spaces,
            );
            lemma_matches_any_singleton(self.tag@, target@, any_case, skip_spaces);
            lemma_matches_any_singleton(self.face@, target@, any_case, skip_spaces);
            if let Some(c) = self.accent_colour {
                lemma_matches_any_singleton(hex6(c % 0x1000000), target@, any_case, skip_spaces);
            }
        }
        in_tag || in_face || in_accent
    }
}

/// The guild-membership view of an author: the account, when known, and the
/// optional guild nickname.
#[derive(Clone, Debug)]
pub struct PartialMember {
    pub user: Option<User>,
    pub nick: Option<String>,
}

/// The facets of an optional account.
pub open spec fn user_facets(user: Option<User>) -> Seq<Seq<char>> {
    match user {
        Some(u) => u.facets(),
        None => Seq::empty(),
    }
}

/// The facets of an optional nickname.
pub open spec fn nick_facets(nick: Option<String>) -> Seq<Seq<char>> {
    match nick {
        Some(n) => seq![n@],
        None => Seq::empty(),
    }
}

impl Search for PartialMember {
    open spec fn facets(&self) -> Seq<Seq<char>> {
        user_facets(self.user) + nick_facets(self.nick)
    }

    fn search_contains(&self, target: &str, any_case: bool, skip_spaces: bool) -> (r: bool) {
        let in_user = match &self.user {
            Some(u) => u.search_contains(target, any_case, skip_spaces),
            None => false,
        };
        let in_nick = match &self.nick {
            Some(n) => str_contains(n.as_str(), target, any_case, skip_spaces),
            None => false,
        };
        proof {
            lemma_matches_any_concat(
                user_facets(self.user),
                nick_facets(self.nick),
                target@,
                any_case,
                skip_spaces,
            );
            if let Some(n) = &self.nick {
                lemma_matches_any_singleton(n@, target@, any_case, skip_spaces);
            }
        }
        in_user || in_nick
    }
}

/// The facets of an optional guild membership.
pub open spec fn member_facets(member: Option<PartialMember>) -> Seq<Seq<char>> {
    match member {
        Some(m) => m.facets(),
        None => Seq::empty(),
    }
}

/// One inbound message: its body text, its author, and the author's guild
/// membership when the gateway supplied it.
#[derive(Clone, Debug)]
pub struct Message {
    pub content: String,
    pub author: User,
    pub member: Option<PartialMember>,
}

impl Search for Message {
    open spec fn facets(&self) -> Seq<Seq<char>> {
        seq![self.content@] + self.author.facets() + member_facets(self.member)
    }

    fn search_contains(&self, target: &str, any_case: bool, skip_spaces: bool) -> (r: bool) {
        let in_content = str_contains(self.content.as_str(), target, any_case, skip_spaces);
        let in_author = self.author.search_contains(target, any_case, skip_spaces);
        let in_member = match &self.member {
            Some(m) => m.search_contains(target, any_case, skip_spaces),
            None => false,
        };
        proof {
            lemma_matches_any_concat(
                seq![self.content@] + self.author.facets(),
                member_facets(self.member),
                target@,
                any_case,
                skip_spaces,
            );
            lemma_matches_any_concat(
                seq![self.content@],
                self.author.facets(),
                target@,
                any_case,
                skip_spaces,
            );
            lemma_matches_any_singleton(self.content@, target@, any_case, skip_spaces);
        }
        in_content || in_author || in_member
    }
}

} // verus!
