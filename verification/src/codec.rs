//! The protocol codec: every request and response of the service is a
//! set of named string fields, one of which, `type`, selects the
//! operation or signals the uniform error.  A message is kept as a
//! pair list and viewed as a mapping where a later pair for the same
//! key overrides an earlier one; a missing key reads as the empty
//! string, which is the permissive lookup the business layer relies on.

use vstd::prelude::*;

verus! {

/// The mapping that a pair list stands for: later pairs override
/// earlier ones.
pub open spec fn map_of(pairs: Seq<(String, String)>) -> Map<Seq<char>, Seq<char>>
    decreases pairs.len(),
{
    if pairs.len() == 0 {
        Map::empty()
    } else {
        map_of(pairs.drop_last()).insert(pairs.last().0@, pairs.last().1@)
    }
}

/// The value of a field, or the empty string when the field is absent.
pub open spec fn field_or_empty(m: Map<Seq<char>, Seq<char>>, k: Seq<char>) -> Seq<char> {
    if m.contains_key(k) {
        m[k]
    } else {
        Seq::empty()
    }
}

/// Whether a message carries the uniform error tag.
pub open spec fn is_error_spec(m: Map<Seq<char>, Seq<char>>) -> bool {
    m.contains_key("type"@) && m["type"@] == "Error"@
}

/// A wire message: named string fields with `type` selecting the
/// operation.
pub struct WireMessage {
    fields: Vec<(String, String)>,
}

impl View for WireMessage {
    type V = Map<Seq<char>, Seq<char>>;

    closed spec fn view(&self) -> Map<Seq<char>, Seq<char>> {
        map_of(self.fields@)
    }
}

/// The part of a message before `i` agrees with the whole message on
/// any key that the pairs from `i` on do not mention.
proof fn lemma_map_of_agrees_from(pairs: Seq<(String, String)>, i: int, k: Seq<char>)
    requires
        0 <= i <= pairs.len(),
        forall|j: int| i <= j < pairs.len() ==> pairs[j].0@ != k,
    ensures
        map_of(pairs).contains_key(k) == map_of(pairs.take(i)).contains_key(k),
        map_of(pairs).contains_key(k) ==> map_of(pairs)[k] == map_of(pairs.take(i))[k],
    decreases pairs.len() - i,
{
    if i == pairs.len() {
        assert(pairs.take(i) =~= pairs);
    } else {
        lemma_map_of_agrees_from(pairs, i + 1, k);
        assert(pairs.take(i + 1).drop_last() =~= pairs.take(i));
        assert(pairs.take(i + 1).last() == pairs[i]);
        assert(map_of(pairs.take(i + 1)) == map_of(pairs.take(i)).insert(
            pairs[i].0@,
            pairs[i].1@,
        ));
    }
}

impl WireMessage {
    /// A message with no fields.
    pub fn empty() -> (m: WireMessage)
        ensures
            m@ == Map::<Seq<char>, Seq<char>>::empty(),
    {
        WireMessage { fields: Vec::new() }
    }

    /// Stores a field: the key now maps to this value and every other
    /// field is untouched.
    pub fn put(&mut self, key: &str, value: &str)
        ensures
            final(self)@ == old(self)@.insert(key@, value@),
    {
        let k = key.to_owned();
        let v = value.to_owned();
        let ghost p = (k, v);
        self.fields.push((k, v));
        proof {
            assert(self.fields@.drop_last() =~= old(self).fields@);
            assert(self.fields@.last() == p);
            assert(map_of(self.fields@) == map_of(self.fields@.drop_last()).insert(p.0@, p.1@));
        }
    }

    /// Reads a field; a missing key reads as the empty string.
    pub fn get(&self, key: &str) -> (r: String)
        ensures
            r@ == field_or_empty(self@, key@),
    {
        let k = key.to_owned();
        let mut i: usize = self.fields.len();
        loop
            invariant
                i <= self.fields@.len(),
                k@ == key@,
                forall|j: int| i <= j < self.fields@.len() ==> self.fields@[j].0@ != key@,
            decreases i,
        {
            if i == 0 {
                proof {
                    lemma_map_of_agrees_from(self.fields@, 0, key@);
                    assert(self.fields@.take(0) =~= Seq::<(String, String)>::empty());
                }
                return String::new();
            }
            i = i - 1;
            if self.fields[i].0 == k {
                proof {
                    lemma_map_of_agrees_from(self.fields@, i + 1, key@);
                    assert(self.fields@.take(i + 1).drop_last() =~= self.fields@.take(i as int));
                    assert(self.fields@.take(i + 1).last() == self.fields@[i as int]);
                    assert(map_of(self.fields@.take(i + 1)) == map_of(
                        self.fields@.take(i as int),
                    ).insert(self.fields@[i as int].0@, self.fields@[i as int].1@));
                }
                return self.fields[i].1.clone();
            }
        }
    }

    /// Whether this message carries the uniform error tag.
    pub fn is_error(&self) -> (r: bool)
        ensures
            r == is_error_spec(self@),
    {
        proof {
            reveal_strlit("Error");
            assert("Error"@.len() == 5);
        }
        let t = self.get("type");
        let e = "Error".to_owned();
        t == e
    }

    /// The human-readable message of an error response, or the empty
    /// string when none was sent.
    pub fn error_message(&self) -> (r: String)
        ensures
            r@ == field_or_empty(self@, "error"@),
    {
        self.get("error")
    }

    /// The pair list of this message, for the transport to serialise.
    pub fn pairs(&self) -> (r: &Vec<(String, String)>)
        ensures
            map_of(r@) == self@,
    {
        &self.fields
    }
}

/// Builds an outbound operation message: the given fields with `type`
/// set to the operation tag.
pub fn encode(tag: &str, fields: WireMessage) -> (m: WireMessage)
    ensures
        m@ == fields@.insert("type"@, tag@),
{
    let mut m = fields;
    m.put("type", tag);
    m
}

/// Rebuilds a message from a received pair list.
pub fn decode(pairs: Vec<(String, String)>) -> (m: WireMessage)
    ensures
        m@ == map_of(pairs@),
{
    WireMessage { fields: pairs }
}

/// Round trip of the codec: encoding overwrites only the operation
/// tag — under the tag key the encoded message reads the tag, and
/// under every other key it reads exactly what the field set held.
pub proof fn lemma_encode_round_trip(
    fields: Map<Seq<char>, Seq<char>>,
    tag: Seq<char>,
    k: Seq<char>,
)
    ensures
        field_or_empty(fields.insert("type"@, tag), "type"@) == tag,
        k != "type"@ ==> field_or_empty(fields.insert("type"@, tag), k) == field_or_empty(
            fields,
            k,
        ),
{
}

} // verus!
