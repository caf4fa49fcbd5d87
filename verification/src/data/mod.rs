//! Namespaced identifiers, coordinate kinds, and the other plain record
//! shapes shared across the persisted-format schema.

use vstd::prelude::*;

pub mod block;
pub mod components;
pub mod entity;
pub mod particle;
pub mod player;

use crate::error::DecodeError;

verus! {

/// How many times `c` occurs in `s`.
pub open spec fn count_char(s: Seq<char>, c: char) -> nat
    decreases s.len(),
{
    if s.len() == 0 {
        0
    } else {
        count_char(s.drop_last(), c) + if s.last() == c {
            1nat
        } else {
            0nat
        }
    }
}

/// A namespaced identifier. Its serialized form is exactly
/// `namespace:path`; parsing text without a separator supplies the default
/// namespace `minecraft`, and text with more than one separator is invalid.
#[derive(Clone, Debug, PartialEq, Eq, Hash)]
pub struct Identifier {
    pub namespace: String,
    pub path: String,
}

impl Identifier {
    /// Parse `namespace:path` text: one colon splits namespace from path,
    /// no colon means the default namespace `minecraft`, and two or more
    /// colons are a grammar error.
    pub fn from_str(s: &str) -> (r: Result<Identifier, DecodeError>)
        ensures
            count_char(s@, ':') == 0 ==> (r matches Ok(id) && id.namespace@ == "minecraft"@
                && id.path@ == s@),
            count_char(s@, ':') == 1 ==> (r matches Ok(id) && exists|i: int|
                0 <= i < s@.len() && s@[i] == ':' && id.namespace@ == s@.subrange(0, i)
                    && id.path@ == s@.subrange(i + 1, s@.len() as int)),
            count_char(s@, ':') >= 2 ==> r == Err::<Identifier, DecodeError>(
                DecodeError::InvalidIdentifierGrammar,
            ),
    {
        let len = s.unicode_len();
        let mut count: usize = 0;
        let mut first: usize = 0;
        let mut i: usize = 0;
        while i < len
            invariant
                i <= len,
                len == s@.len(),
                count <= i,
                count == count_char(s@.subrange(0, i as int), ':'),
                count > 0 ==> first < i && s@[first as int] == ':',
            decreases len - i,
        {
            proof {
                assert(s@.subrange(0, i + 1).drop_last() =~= s@.subrange(0, i as int));
            }
            if s.get_char(i) == ':' {
                if count == 0 {
                    first = i;
                }
                count = count + 1;
            }
            i = i + 1;
        }
        proof {
            assert(s@.subrange(0, len as int) =~= s@);
        }
        if count == 0 {
            Ok(Identifier { namespace: String::from_str("minecraft"), path: s.to_owned() })
        } else if count == 1 {
            let namespace = s.substring_char(0, first).to_owned();
            let path = s.substring_char(first + 1, len).to_owned();
            let id = Identifier { namespace, path };
            proof {
                assert(0 <= first < s@.len() && s@[first as int] == ':' && id.namespace@
                    == s@.subrange(0, first as int) && id.path@ == s@.subrange(
                    first as int + 1,
                    s@.len() as int,
                ));
            }
            Ok(id)
        } else {
            Err(DecodeError::InvalidIdentifierGrammar)
        }
    }

    /// The serialized form `namespace:path`.
    pub fn to_text(&self) -> (r: String)
        ensures
            r@ == self.namespace@ + seq![':'] + self.path@,
    {
        let mut out = self.namespace.clone();
        out.append(":");
        out.append(self.path.as_str());
        proof {
            reveal_strlit(":");
            assert(":"@ =~= seq![':']);
        }
        out
    }
}

/// Occurrence counts add up over concatenation.
proof fn lemma_count_char_concat(a: Seq<char>, b: Seq<char>, c: char)
    ensures
        count_char(a + b, c) == count_char(a, c) + count_char(b, c),
    decreases b.len(),
{
    if b.len() == 0 {
        assert(a + b =~= a);
    } else {
        assert((a + b).drop_last() =~= a + b.drop_last());
        assert((a + b).last() == b.last());
        lemma_count_char_concat(a, b.drop_last(), c);
    }
}

/// A character that occurs somewhere is counted at least once.
proof fn lemma_count_char_at(s: Seq<char>, c: char, i: int)
    requires
        0 <= i < s.len(),
        s[i] == c,
    ensures
        count_char(s, c) >= 1,
    decreases s.len(),
{
    if i < s.len() - 1 {
        lemma_count_char_at(s.drop_last(), c, i);
    }
}

/// Law: the serialized form of an identifier whose parts are free of the
/// separator has exactly one separator, so parsing it takes the one-colon
/// case.
pub proof fn lemma_identifier_text_one_separator(id: Identifier)
    requires
        count_char(id.namespace@, ':') == 0,
        count_char(id.path@, ':') == 0,
    ensures
        count_char(id.namespace@ + seq![':'] + id.path@, ':') == 1,
{
    let ns = id.namespace@;
    let path = id.path@;
    lemma_count_char_concat(ns + seq![':'], path, ':');
    lemma_count_char_concat(ns, seq![':'], ':');
    assert(count_char(seq![':'], ':') == 1) by {
        let one = seq![':'];
        assert(one.len() == 1 && one.last() == ':');
        assert(one.drop_last() =~= Seq::<char>::empty());
        assert(count_char(one.drop_last(), ':') == 0);
    }
}

/// Law: parsing the serialized form of an identifier whose parts are free
/// of the separator recovers the namespace and the path exactly. The
/// witness `i` is the separator position the parser found (its one-colon
/// case, which [`lemma_identifier_text_one_separator`] shows applies).
pub proof fn lemma_identifier_round_trip(id: Identifier, parsed: Identifier, i: int)
    requires
        count_char(id.namespace@, ':') == 0,
        count_char(id.path@, ':') == 0,
        ({
            let s = id.namespace@ + seq![':'] + id.path@;
            &&& 0 <= i < s.len()
            &&& s[i] == ':'
            &&& parsed.namespace@ == s.subrange(0, i)
            &&& parsed.path@ == s.subrange(i + 1, s.len() as int)
        }),
    ensures
        parsed.namespace@ == id.namespace@,
        parsed.path@ == id.path@,
{
    let ns = id.namespace@;
    let path = id.path@;
    let s = ns + seq![':'] + path;
    if i < ns.len() {
        assert(ns[i] == ':');
        lemma_count_char_at(ns, ':', i);
        assert(false);
    }
    if i > ns.len() {
        assert(path[i - ns.len() - 1] == ':');
        lemma_count_char_at(path, ':', i - ns.len() - 1);
        assert(false);
    }
    assert(i == ns.len());
    assert(s.subrange(0, i) =~= ns);
    assert(s.subrange(i + 1, s.len() as int) =~= path);
}

/// The position of a block, together with the dimension holding it.
#[derive(Clone, Debug)]
pub struct PositionInDimension {
    pub dimension: Identifier,
    pub pos: [i32; 3],
}

/// A path into the persisted tagged tree (currently a placeholder shape in
/// the format).
#[derive(Clone, Debug)]
pub struct NbtPath;

/// How a single coordinate component is anchored.
#[derive(Clone, Copy, Debug, PartialEq, Eq, Structural)]
pub enum CoordinateKind {
    Absolute,
    Relative,
    Local,
}

impl CoordinateKind {
    /// The textual prefix that marks this kind in serialized coordinates.
    pub fn prefix(self) -> (r: &'static str)
        ensures
            r@ == match self {
                CoordinateKind::Absolute => Seq::<char>::empty(),
                CoordinateKind::Relative => seq!['~'],
                CoordinateKind::Local => seq!['^'],
            },
    {
        proof {
            reveal_strlit("");
            reveal_strlit("~");
            reveal_strlit("^");
        }
        match self {
            CoordinateKind::Absolute => "",
            CoordinateKind::Relative => "~",
            CoordinateKind::Local => "^",
        }
    }
}


/// A target selector, carried as two-character text.
#[derive(Clone, Copy, Debug, PartialEq, Eq, Structural)]
pub enum Selector {
    NearestPlayer,
    RandomPlayer,
    AllPlayers,
    AllEntities,
    Executor,
    NearestEntity,
}

impl Selector {
    /// The serialized text of this selector.
    pub open spec fn text(self) -> Seq<char> {
        match self {
            Selector::NearestPlayer => "@p"@,
            Selector::RandomPlayer => "@r"@,
            Selector::AllPlayers => "@a"@,
            Selector::AllEntities => "@e"@,
            Selector::Executor => "@s"@,
            Selector::NearestEntity => "@n"@,
        }
    }

    /// The serialized form.
    pub fn to_text(self) -> (r: String)
        ensures
            r@ == self.text(),
    {
        match self {
            Selector::NearestPlayer => String::from_str("@p"),
            Selector::RandomPlayer => String::from_str("@r"),
            Selector::AllPlayers => String::from_str("@a"),
            Selector::AllEntities => String::from_str("@e"),
            Selector::Executor => String::from_str("@s"),
            Selector::NearestEntity => String::from_str("@n"),
        }
    }

    /// Parse selector text; exactly the six known forms are accepted.
    pub fn from_str(s: &str) -> (r: Result<Selector, DecodeError>)
        ensures
            match r {
                Ok(v) => v.text() == s@,
                Err(e) => (s@ != "@p"@ && s@ != "@r"@ && s@ != "@a"@ && s@ != "@e"@ && s@ != "@s"@
                    && s@ != "@n"@) && (e matches DecodeError::InvalidEnumText(label, text)
                    && label@ == "Selector"@ && text@ == s@),
            },
    {
        if crate::str_eq(s, "@p") {
            Ok(Selector::NearestPlayer)
        } else if crate::str_eq(s, "@r") {
            Ok(Selector::RandomPlayer)
        } else if crate::str_eq(s, "@a") {
            Ok(Selector::AllPlayers)
        } else if crate::str_eq(s, "@e") {
            Ok(Selector::AllEntities)
        } else if crate::str_eq(s, "@s") {
            Ok(Selector::Executor)
        } else if crate::str_eq(s, "@n") {
            Ok(Selector::NearestEntity)
        } else {
            Err(DecodeError::InvalidEnumText("Selector", s.to_owned()))
        }
    }
}

} // verus!
