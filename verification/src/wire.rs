use crate::parameters::{collect_pairs, pairs_view, wire_pairs, Parameter, WirePairs};
use vstd::prelude::*;

verus! {

/// serde_json's reason for not writing a value, carried through unread.
#[verifier::external_type_specification]
#[verifier::external_body]
pub struct ExJsonError(serde_json::Error);

/// The field of the body of a POST request under which the parameters go.
pub const PARAMETERS_FIELD: &'static str = "query_parameters";

/// The JSON string that `serde_json::to_string` writes for a text: the
/// text between double quotes, with the escapes that JSON asks for.
pub uninterp spec fn json_string(text: Seq<char>) -> Seq<char>;

/// The members of a JSON object, each a name, a colon and a value, with a
/// comma between any two. Names and values stand as they are given.
pub open spec fn members_text(members: WirePairs) -> Seq<char>
    decreases members.len(),
{
    if members.len() == 0 {
        Seq::empty()
    } else if members.len() == 1 {
        members[0].0 + ":"@ + members[0].1
    } else {
        members_text(members.drop_last()) + ","@ + members.last().0 + ":"@ + members.last().1
    }
}

/// A JSON object without white space: its members between braces.
pub open spec fn object_text(members: WirePairs) -> Seq<char> {
    "{"@ + members_text(members) + "}"@
}

/// Names and values as JSON strings, pair by pair.
pub open spec fn encoded(pairs: WirePairs) -> WirePairs {
    pairs.map_values(|pair: (Seq<char>, Seq<char>)| (json_string(pair.0), json_string(pair.1)))
}

/// The body of a POST request that carries the given names and values:
/// `{"query_parameters":{name:value,...}}`, every name and value a JSON
/// string.
pub open spec fn body_text(pairs: WirePairs) -> Seq<char> {
    object_text(seq![(json_string(PARAMETERS_FIELD@), object_text(encoded(pairs)))])
}

/// What the parameters of a query put in the body of its POST request:
/// each name once, with the value of the last parameter of that name.
/// No parameters give the same body as an empty list.
pub open spec fn parameters_body(parameters: Option<Vec<Parameter>>) -> Seq<char> {
    match parameters {
        Some(list) => body_text(wire_pairs(list@)),
        None => body_text(Seq::empty()),
    }
}

/// Calls `serde_json::to_string` on a string slice. Trusted: the result is
/// the JSON string of the text and depends on nothing else; and it is
/// `Ok`, since serialization fails only where the value's `Serialize`
/// fails or a map has a key that is no string, and a string slice written
/// into a `String` has neither.
#[verifier::external_body]
fn encode_string(text: &str) -> (encoded: Result<String, serde_json::Error>)
    ensures
        encoded is Ok,
        encoded->Ok_0@ == json_string(text@),
{
    serde_json::to_string(text)
}

/// Writes a JSON object whose members have the given names and values, in
/// their order. Names and values are written as they stand: they are JSON
/// texts already.
pub fn write_object(members: &Vec<(String, String)>) -> (text: String)
    ensures
        text@ == object_text(pairs_view(members@)),
{
    let ghost given = pairs_view(members@);
    let mut text = "{".to_owned();
    let mut done: usize = 0;
    assert(given.take(0) =~= Seq::empty());
    assert(text@ =~= "{"@ + members_text(given.take(0)));
    while done < members.len()
        invariant
            done <= members.len(),
            given == pairs_view(members@),
            text@ == "{"@ + members_text(given.take(done as int)),
        decreases members.len() - done,
    {
        let ghost before = given.take(done as int);
        let ghost after = given.take(done + 1);
        proof {
            assert(after.drop_last() =~= before);
            assert(after.last() == (members@[done as int].0@, members@[done as int].1@));
        }
        if done > 0 {
            text.append(",");
        }
        text.append(members[done].0.as_str());
        text.append(":");
        text.append(members[done].1.as_str());
        proof {
            if done == 0 {
                assert(text@ =~= "{"@ + (after[0].0 + ":"@ + after[0].1));
            } else {
                assert(text@ =~= "{"@ + (members_text(before) + ","@ + after.last().0 + ":"@
                    + after.last().1));
            }
        }
        done += 1;
    }
    assert(given.take(done as int) =~= given);
    text.append("}");
    text
}

/// Writes names and values as JSON strings, pair by pair.
fn encode_pairs(pairs: &Vec<(String, String)>) -> (strings: Vec<(String, String)>)
    ensures
        pairs_view(strings@) == encoded(pairs_view(pairs@)),
{
    let mut strings: Vec<(String, String)> = Vec::new();
    let mut done: usize = 0;
    while done < pairs.len()
        invariant
            done <= pairs.len(),
            strings.len() == done,
            forall|i: int|
                0 <= i < done ==> {
                    &&& (#[trigger] strings@[i]).0@ == json_string(pairs@[i].0@)
                    &&& strings@[i].1@ == json_string(pairs@[i].1@)
                },
        decreases pairs.len() - done,
    {
        let name = encode_string(pairs[done].0.as_str()).unwrap();
        let value = encode_string(pairs[done].1.as_str()).unwrap();
        strings.push((name, value));
        done += 1;
    }
    assert(pairs_view(strings@) =~= encoded(pairs_view(pairs@)));
    strings
}

/// Writes the body of a POST request that carries the given names and
/// values, in their order.
pub fn write_body(pairs: &Vec<(String, String)>) -> (body: String)
    ensures
        body@ == body_text(pairs_view(pairs@)),
{
    let parameters = write_object(&encode_pairs(pairs));
    let field = encode_string(PARAMETERS_FIELD).unwrap();
    let mut members: Vec<(String, String)> = Vec::new();
    members.push((field, parameters));
    assert(pairs_view(members@) =~= seq![
        (json_string(PARAMETERS_FIELD@), object_text(encoded(pairs_view(pairs@)))),
    ]);
    write_object(&members)
}

/// Writes the body of a POST request for the parameters of a query.
pub fn encode_parameters(parameters: Option<Vec<Parameter>>) -> (body: String)
    ensures
        body@ == parameters_body(parameters),
{
    let pairs = match parameters {
        Some(list) => collect_pairs(&list),
        None => Vec::new(),
    };
    assert(parameters is None ==> pairs_view(pairs@) =~= Seq::empty());
    write_body(&pairs)
}

} // verus!
