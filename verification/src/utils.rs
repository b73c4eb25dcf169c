use vstd::prelude::*;

use crate::errors::DelegationError;
use crate::json::{
    lemma_rep_of_seq, lemma_strings_of_non_string, lemma_strings_of_snoc, rep_of_seq, str_reps,
    strings_of, JsonValue,
};
use crate::text::strs;

verus! {

/// The quoted, comma-separated rendering of the string list `a` from
/// position `i` on; the last item carries no trailing separator.
pub open spec fn spec_array_items_from(a: Seq<Seq<char>>, i: int) -> Seq<char>
    decreases a.len() - i,
    when 0 <= i <= a.len()
{
    if i >= a.len() {
        Seq::<char>::empty()
    } else if i == a.len() - 1 {
        "\""@ + a[i] + "\""@
    } else {
        "\""@ + a[i] + "\""@ + ", "@ + spec_array_items_from(a, i + 1)
    }
}

/// The bracketed text that `serialize_array` produces.
pub open spec fn spec_serialize_array(a: Seq<Seq<char>>) -> Seq<char> {
    "[ "@ + spec_array_items_from(a, 0) + " ]"@
}

/// Render a list of strings as a bracketed, quoted, comma-separated text.
pub fn serialize_array(array: &Vec<String>) -> (r: String)
    ensures
        r@ == spec_serialize_array(array@.map_values(|s: String| s@)),
{
    let ghost items = array@.map_values(|s: String| s@);
    let mut result = String::new();
    result.append("[ ");
    let len = array.len();
    let mut i: usize = 0;
    while i < len
        invariant
            0 <= i <= len,
            len == array@.len(),
            items == array@.map_values(|s: String| s@),
            result@ + spec_array_items_from(items, i as int) == "[ "@ + spec_array_items_from(
                items,
                0,
            ),
        decreases len - i,
    {
        let ghost before = result@;
        result.append("\"");
        result.append(array[i].as_str());
        result.append("\"");
        if i + 1 < len {
            result.append(", ");
            proof {
                assert(result@ + spec_array_items_from(items, i + 1) =~= before
                    + spec_array_items_from(items, i as int));
            }
        } else {
            proof {
                assert(result@ + spec_array_items_from(items, i + 1) =~= before
                    + spec_array_items_from(items, i as int));
            }
        }
        i = i + 1;
    }
    result.append(" ]");
    proof {
        assert(spec_array_items_from(items, len as int) =~= Seq::<char>::empty());
        assert(result@ =~= spec_serialize_array(items));
    }
    result
}

/// Lift a list of strings into JSON string nodes, in order.
#[verifier::loop_isolation(false)]
pub fn to_value_array(array: &Vec<String>) -> (r: Vec<JsonValue>)
    ensures
        rep_of_seq(r@) == str_reps(strs(array@)),
{
    let mut items: Vec<JsonValue> = Vec::new();
    let mut i: usize = 0;
    while i < array.len()
        invariant
            0 <= i <= array@.len(),
            rep_of_seq(items@) == str_reps(strs(array@.take(i as int))),
        decreases array@.len() - i,
    {
        let ghost before = items@;
        items.push(JsonValue::JString(array[i].clone()));
        proof {
            assert(items@.drop_last() =~= before);
            assert(rep_of_seq(items@) == rep_of_seq(before).push(crate::json::rep(items@.last())));
            assert(str_reps(strs(array@.take(i + 1))) =~= str_reps(
                strs(array@.take(i as int)),
            ).push(crate::json::JsonRep::Str(array@[i as int]@)));
        }
        i = i + 1;
    }
    proof {
        assert(array@.take(array@.len() as int) =~= array@);
    }
    items
}

/// Read a list of JSON nodes back as strings; fails when any node is not a
/// string.
#[verifier::loop_isolation(false)]
pub fn from_value_array(values: &Vec<JsonValue>) -> (r: Result<Vec<String>, DelegationError>)
    ensures
        match r {
            Ok(v) => strings_of(rep_of_seq(values@)) == Some(strs(v@)),
            Err(e) => e == DelegationError::Deserialize && strings_of(rep_of_seq(values@)) is None,
        },
{
    let ghost vrep = rep_of_seq(values@);
    proof {
        lemma_rep_of_seq(values@);
    }
    let mut out: Vec<String> = Vec::new();
    let mut i: usize = 0;
    while i < values.len()
        invariant
            0 <= i <= values@.len(),
            strings_of(vrep.take(i as int)) == Some(strs(out@)),
        decreases values@.len() - i,
    {
        match &values[i] {
            JsonValue::JString(s) => {
                let ghost old_out = out@;
                out.push(s.clone());
                proof {
                    lemma_strings_of_snoc(vrep, i as int);
                    assert(strs(out@) =~= strs(old_out).push(s@));
                }
            },
            _ => {
                proof {
                    lemma_strings_of_non_string(vrep, i as int);
                }
                return Err(DelegationError::Deserialize);
            },
        }
        i = i + 1;
    }
    proof {
        assert(vrep.take(vrep.len() as int) =~= vrep);
    }
    Ok(out)
}

} // verus!
