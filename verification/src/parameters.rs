use crate::dateutil::{naive_text, naive_to_string};
use chrono::NaiveDateTime;
use vstd::prelude::*;

verus! {

/// Dune supports 4 different parameter types enumerated here:
/// In the end, all parameters are passed to
/// Dune via the API as JSON strings.
#[derive(Debug, Clone, Copy, PartialEq, Eq, Structural)]
pub enum ParameterType {
    /// A.k.a. string (used for transaction hashes and evm addresses, etc.)
    Text,
    /// Encapsulates all numerical types (integer and float).
    Number,
    /// A.k.a List or Dropdown of text.
    Enum,
    /// Dune Date strings take the form `YYYY-MM-DD hh:mm:ss`
    Date,
}

/// A named, typed value for one of a query's parameters.
#[derive(Debug, PartialEq)]
pub struct Parameter {
    /// Parameter Name.
    pub key: String,
    /// Currently unused type field
    /// (will become relevant when API supports `upsert_query`)
    pub ptype: ParameterType,
    /// String representation of parameter's value
    pub value: String,
}

/// The number of characters of a date and time to the second:
/// `YYYY-MM-DD HH:MM:SS`.
pub const DATE_PRECISION: usize = 19;

/// A text cut to the precision of a date: its first nineteen characters,
/// or all of it where it has fewer.
pub open spec fn to_the_second(text: Seq<char>) -> Seq<char> {
    if text.len() >= DATE_PRECISION {
        text.subrange(0, DATE_PRECISION as int)
    } else {
        text
    }
}

impl Parameter {
    /// Whether this is the parameter of the given name, type and value.
    pub open spec fn carries(&self, name: Seq<char>, ptype: ParameterType, value: Seq<char>) -> bool {
        &&& self.key@ == name
        &&& self.ptype == ptype
        &&& self.value@ == value
    }

    /// Constructor of Date type Parameter.
    ///
    /// Dune date precision is to the second: of the text that chrono writes
    /// for the value, the parameter keeps the first nineteen characters,
    /// `YYYY-MM-DD HH:MM:SS`, and drops the fraction of a second.
    pub fn date(name: &str, value: NaiveDateTime) -> (parameter: Self)
        ensures
            parameter.carries(
                name@,
                ParameterType::Date,
                naive_text(value).subrange(0, DATE_PRECISION as int),
            ),
            parameter.value@.len() == DATE_PRECISION,
    {
        let text = naive_to_string(&value);
        Parameter::date_from_text(name, text.as_str())
    }

    /// Constructor of Date type Parameter from a date and time written out
    /// as `YYYY-MM-DD HH:MM:SS`, with or without a fraction of a second
    /// behind it. The parameter keeps the text to the second.
    pub fn date_from_text(name: &str, text: &str) -> (parameter: Self)
        ensures
            parameter.carries(name@, ParameterType::Date, to_the_second(text@)),
    {
        let value = if text.unicode_len() >= DATE_PRECISION {
            text.substring_char(0, DATE_PRECISION).to_owned()
        } else {
            text.to_owned()
        };
        Parameter { key: name.to_owned(), ptype: ParameterType::Date, value }
    }

    /// Constructor of Text type Parameter
    pub fn text(name: &str, value: &str) -> (parameter: Self)
        ensures
            parameter.carries(name@, ParameterType::Text, value@),
    {
        Parameter { key: name.to_owned(), ptype: ParameterType::Text, value: value.to_owned() }
    }

    /// Constructor of Numeric type Parameter
    pub fn number(name: &str, value: &str) -> (parameter: Self)
        ensures
            parameter.carries(name@, ParameterType::Number, value@),
    {
        Parameter { key: name.to_owned(), ptype: ParameterType::Number, value: value.to_owned() }
    }

    /// Constructor of List/Enum type Parameter
    pub fn list(name: &str, value: &str) -> (parameter: Self)
        ensures
            parameter.carries(name@, ParameterType::Enum, value@),
    {
        Parameter { key: name.to_owned(), ptype: ParameterType::Enum, value: value.to_owned() }
    }
}

/// The names and values of parameters as sent, in the order sent.
pub type WirePairs = Seq<(Seq<char>, Seq<char>)>;

/// The names and values that a vector of owned pairs holds.
pub open spec fn pairs_view(pairs: Seq<(String, String)>) -> WirePairs {
    pairs.map_values(|pair: (String, String)| (pair.0@, pair.1@))
}

/// The pairs with the value of a name set: in place where the name is
/// there already, at the end where it is new.
pub open spec fn with_pair(pairs: WirePairs, name: Seq<char>, value: Seq<char>) -> WirePairs
    decreases pairs.len(),
{
    if pairs.len() == 0 {
        seq![(name, value)]
    } else if pairs[0].0 == name {
        pairs.update(0, (name, value))
    } else {
        seq![pairs[0]] + with_pair(pairs.drop_first(), name, value)
    }
}

/// What a list of parameters puts on the wire: each name once, in the
/// order in which the names first occur, each with the value of the last
/// parameter of that name.
pub open spec fn wire_pairs(parameters: Seq<Parameter>) -> WirePairs
    decreases parameters.len(),
{
    if parameters.len() == 0 {
        Seq::empty()
    } else {
        with_pair(
            wire_pairs(parameters.drop_last()),
            parameters.last().key@,
            parameters.last().value@,
        )
    }
}

/// Whether no two pairs have the same name.
pub open spec fn distinct_names(pairs: WirePairs) -> bool {
    forall|i: int, j: int|
        0 <= i < pairs.len() && 0 <= j < pairs.len() && i != j ==> pairs[i].0 != pairs[j].0
}

/// The value that stands with a name among the pairs, if the name is there.
pub open spec fn sent_value(pairs: WirePairs, name: Seq<char>) -> Option<Seq<char>>
    decreases pairs.len(),
{
    if pairs.len() == 0 {
        None
    } else if pairs[0].0 == name {
        Some(pairs[0].1)
    } else {
        sent_value(pairs.drop_first(), name)
    }
}

/// The value of the last parameter of a name, if there is one.
pub open spec fn last_value(parameters: Seq<Parameter>, name: Seq<char>) -> Option<Seq<char>>
    decreases parameters.len(),
{
    if parameters.len() == 0 {
        None
    } else if parameters.last().key@ == name {
        Some(parameters.last().value@)
    } else {
        last_value(parameters.drop_last(), name)
    }
}

/// Setting a name that stands at an index, and nowhere before it, replaces
/// the pair at that index.
proof fn lemma_with_pair_found(pairs: WirePairs, name: Seq<char>, value: Seq<char>, at: int)
    requires
        0 <= at < pairs.len(),
        pairs[at].0 == name,
        forall|i: int| 0 <= i < at ==> pairs[i].0 != name,
    ensures
        with_pair(pairs, name, value) == pairs.update(at, (name, value)),
    decreases pairs.len(),
{
    if at > 0 {
        let rest = pairs.drop_first();
        assert forall|i: int| 0 <= i < at - 1 implies rest[i].0 != name by {
            assert(rest[i] == pairs[i + 1]);
        }
        lemma_with_pair_found(rest, name, value, at - 1);
        assert(seq![pairs[0]] + rest.update(at - 1, (name, value)) =~= pairs.update(
            at,
            (name, value),
        ));
    }
}

/// Setting a name that stands nowhere appends the pair.
proof fn lemma_with_pair_new(pairs: WirePairs, name: Seq<char>, value: Seq<char>)
    requires
        forall|i: int| 0 <= i < pairs.len() ==> pairs[i].0 != name,
    ensures
        with_pair(pairs, name, value) == pairs.push((name, value)),
    decreases pairs.len(),
{
    if pairs.len() == 0 {
        assert(seq![(name, value)] =~= pairs.push((name, value)));
    } else {
        let rest = pairs.drop_first();
        assert forall|i: int| 0 <= i < rest.len() implies rest[i].0 != name by {
            assert(rest[i] == pairs[i + 1]);
        }
        lemma_with_pair_new(rest, name, value);
        assert(seq![pairs[0]] + rest.push((name, value)) =~= pairs.push((name, value)));
    }
}

/// Setting a name keeps the names of the other pairs and adds at most the
/// name set.
proof fn lemma_with_pair_names(pairs: WirePairs, name: Seq<char>, value: Seq<char>)
    ensures
        with_pair(pairs, name, value).len() >= pairs.len(),
        with_pair(pairs, name, value).len() <= pairs.len() + 1,
        forall|i: int| 0 <= i < pairs.len() ==> with_pair(pairs, name, value)[i].0 == pairs[i].0,
        with_pair(pairs, name, value).len() == pairs.len() + 1 ==> {
            &&& with_pair(pairs, name, value).last().0 == name
            &&& forall|i: int| 0 <= i < pairs.len() ==> pairs[i].0 != name
        },
    decreases pairs.len(),
{
    if pairs.len() > 0 && pairs[0].0 != name {
        let rest = pairs.drop_first();
        lemma_with_pair_names(rest, name, value);
        let set = with_pair(pairs, name, value);
        assert forall|i: int| 0 <= i < pairs.len() implies set[i].0 == pairs[i].0 by {
            if i > 0 {
                assert(set[i] == with_pair(rest, name, value)[i - 1]);
                assert(rest[i - 1] == pairs[i]);
            }
        }
        if set.len() == pairs.len() + 1 {
            assert(set.last() == with_pair(rest, name, value).last());
            assert forall|i: int| 0 <= i < pairs.len() implies pairs[i].0 != name by {
                if i > 0 {
                    assert(rest[i - 1] == pairs[i]);
                }
            }
        }
    }
}

/// Setting a name among pairs of distinct names leaves the names distinct.
proof fn lemma_with_pair_distinct(pairs: WirePairs, name: Seq<char>, value: Seq<char>)
    requires
        distinct_names(pairs),
    ensures
        distinct_names(with_pair(pairs, name, value)),
{
    lemma_with_pair_names(pairs, name, value);
    let set = with_pair(pairs, name, value);
    assert forall|i: int, j: int|
        0 <= i < set.len() && 0 <= j < set.len() && i != j implies set[i].0 != set[j].0 by {
        if i < pairs.len() && j < pairs.len() {
            assert(pairs[i].0 != pairs[j].0);
        } else if i < pairs.len() {
            assert(pairs[i].0 != name);
        } else {
            assert(pairs[j].0 != name);
        }
    }
}

/// After a name is set, it stands with the value set, and every other name
/// stands as before.
proof fn lemma_with_pair_values(
    pairs: WirePairs,
    name: Seq<char>,
    value: Seq<char>,
    other: Seq<char>,
)
    ensures
        sent_value(with_pair(pairs, name, value), other) == if other == name {
            Some(value)
        } else {
            sent_value(pairs, other)
        },
    decreases pairs.len(),
{
    let set = with_pair(pairs, name, value);
    if pairs.len() == 0 {
        assert(set[0] == (name, value));
        assert(set.drop_first().len() == 0);
        assert(sent_value(set.drop_first(), other) == None::<Seq<char>>);
    } else if pairs[0].0 == name {
        assert(set[0] == (name, value));
        assert(set.drop_first() =~= pairs.drop_first());
    } else {
        let rest = pairs.drop_first();
        lemma_with_pair_values(rest, name, value, other);
        assert(set[0] == pairs[0]);
        assert(set.drop_first() =~= with_pair(rest, name, value));
    }
}

/// No name is sent twice.
pub proof fn lemma_wire_pairs_distinct(parameters: Seq<Parameter>)
    ensures
        distinct_names(wire_pairs(parameters)),
    decreases parameters.len(),
{
    if parameters.len() > 0 {
        lemma_wire_pairs_distinct(parameters.drop_last());
        lemma_with_pair_distinct(
            wire_pairs(parameters.drop_last()),
            parameters.last().key@,
            parameters.last().value@,
        );
    }
}

/// A name is sent exactly where a parameter has it, and then with the
/// value of the last parameter of that name.
pub proof fn lemma_wire_pairs_last_wins(parameters: Seq<Parameter>, name: Seq<char>)
    ensures
        sent_value(wire_pairs(parameters), name) == last_value(parameters, name),
    decreases parameters.len(),
{
    if parameters.len() > 0 {
        lemma_wire_pairs_last_wins(parameters.drop_last(), name);
        lemma_with_pair_values(
            wire_pairs(parameters.drop_last()),
            parameters.last().key@,
            parameters.last().value@,
            name,
        );
    }
}

/// Collects what a list of parameters puts on the wire.
pub fn collect_pairs(parameters: &Vec<Parameter>) -> (pairs: Vec<(String, String)>)
    ensures
        pairs_view(pairs@) == wire_pairs(parameters@),
        distinct_names(pairs_view(pairs@)),
{
    proof {
        lemma_wire_pairs_distinct(parameters@);
    }
    let mut pairs: Vec<(String, String)> = Vec::new();
    let mut done: usize = 0;
    assert(parameters@.take(0) =~= Seq::<Parameter>::empty());
    assert(pairs_view(pairs@) =~= Seq::empty());
    while done < parameters.len()
        invariant
            done <= parameters.len(),
            pairs_view(pairs@) == wire_pairs(parameters@.take(done as int)),
        decreases parameters.len() - done,
    {
        let parameter = &parameters[done];
        let ghost before = pairs_view(pairs@);
        let mut at: usize = 0;
        while at < pairs.len() && !(pairs[at].0 == parameter.key)
            invariant
                at <= pairs.len(),
                before == pairs_view(pairs@),
                forall|i: int| 0 <= i < at ==> before[i].0 != parameter.key@,
            decreases pairs.len() - at,
        {
            assert(before[at as int].0 == pairs@[at as int].0@);
            at += 1;
        }
        let pair = (parameter.key.clone(), parameter.value.clone());
        if at < pairs.len() {
            assert(before[at as int].0 == pairs@[at as int].0@);
            pairs.set(at, pair);
            proof {
                lemma_with_pair_found(before, parameter.key@, parameter.value@, at as int);
                assert(pairs_view(pairs@) =~= before.update(
                    at as int,
                    (parameter.key@, parameter.value@),
                ));
            }
        } else {
            pairs.push(pair);
            proof {
                lemma_with_pair_new(before, parameter.key@, parameter.value@);
                assert(pairs_view(pairs@) =~= before.push((parameter.key@, parameter.value@)));
            }
        }
        proof {
            let next = parameters@.take(done + 1);
            assert(next.drop_last() =~= parameters@.take(done as int));
            assert(next.last() == parameters@[done as int]);
        }
        done += 1;
    }
    assert(parameters@.take(done as int) =~= parameters@);
    pairs
}

} // verus!
