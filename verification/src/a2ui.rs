//! Approval surfaces: finding the component that answers an approval and
//! describing a rendered surface.

use vstd::prelude::*;
use crate::json::{Json, JsonV, jget, jstr, sfield, string_field, lemma_lookup_in, obj_lookup, find_member};
use crate::state::{ApprovalRow, RenderedSurface, opt_view};
use crate::text::cat;

verus! {

/// The catalogs that the client renders surfaces from.
pub const SUPPORTED_CATALOG: &'static str = "ramflux.basic.v1";

/// The id and permission of the component `c` when it carries a permission,
/// else of the first such component among its children.
pub open spec fn first_action_one(c: JsonV) -> Option<(Seq<char>, Seq<char>)>
    decreases c,
{
    match jstr(jget(c, "action_permission"@)) {
        Some(p) => Some((sfield(c, "id"@, ""@), p)),
        None => match c {
            JsonV::Object(es) => match obj_lookup(es, "children"@) {
                Some(JsonV::Array(items)) => {
                    proof {
                        lemma_lookup_in(es, "children"@);
                        let i = choose|i: int| 0 <= i < es.len() && es[i].1 == JsonV::Array(items);
                        assert(decreases_to!(c => es));
                        assert(decreases_to!(es => es[i]));
                        assert(decreases_to!(es[i] => es[i].1));
                        assert(decreases_to!(es[i].1 => items));
                    }
                    first_action_list(items)
                },
                _ => None,
            },
            _ => None,
        },
    }
}

/// The first component, depth first and in order, that carries an action
/// permission, as its id and that permission.
pub open spec fn first_action_list(cs: Seq<JsonV>) -> Option<(Seq<char>, Seq<char>)>
    decreases cs,
{
    if cs.len() == 0 {
        None
    } else {
        match first_action_one(cs[0]) {
            Some(a) => Some(a),
            None => first_action_list(cs.subrange(1, cs.len() as int)),
        }
    }
}

proof fn lemma_first_action_skip(cs: Seq<JsonV>, i: int)
    requires
        0 <= i < cs.len(),
        first_action_one(cs[i]) is None,
    ensures
        first_action_list(cs.skip(i)) == first_action_list(cs.skip(i + 1)),
{
    assert(cs.skip(i).subrange(1, cs.skip(i).len() as int) =~= cs.skip(i + 1));
}

proof fn lemma_first_action_hit(cs: Seq<JsonV>, i: int)
    requires
        0 <= i < cs.len(),
        first_action_one(cs[i]) is Some,
    ensures
        first_action_list(cs.skip(i)) == first_action_one(cs[i]),
{
    assert(cs.skip(i)[0] == cs[i]);
}

/// The id and permission of the first actionable component among
/// `components`, searched depth first.
pub fn first_actionable_component(components: &Vec<Json>) -> (r: Option<(String, String)>)
    ensures
        match r {
            Some((id, p)) => first_action_list(components@.map_values(|c: Json| c@)) == Some((id@, p@)),
            None => first_action_list(components@.map_values(|c: Json| c@)) is None,
        },
    decreases components,
{
    let ghost cs = components@.map_values(|c: Json| c@);
    assert(cs.skip(0) =~= cs);
    let mut i: usize = 0;
    while i < components.len()
        invariant
            0 <= i <= components.len(),
            cs == components@.map_values(|c: Json| c@),
            first_action_list(cs) == first_action_list(cs.skip(i as int)),
        decreases components.len() - i,
    {
        let component = &components[i];
        assert(cs[i as int] == component@);
        match component.get("action_permission") {
            Some(p) => match p.as_str() {
                Some(permission) => {
                    let id = string_field(component, "id", "");
                    proof {
                        assert(jstr(jget(cs[i as int], "action_permission"@)) == Some(permission@));
                        assert(first_action_one(cs[i as int]) == Some((id@, permission@)));
                        lemma_first_action_hit(cs, i as int);
                    }
                    return Some((id, permission.clone()));
                },
                None => {},
            },
            None => {},
        }
        match component {
            Json::Object(entries) => {
                proof {
                    crate::json::lemma_object_view(*entries);
                }
                match find_member(entries, "children") {
                    Some(k) => match &entries[k].1 {
                        Json::Array(items) => {
                            proof {
                                vstd::std_specs::vec::axiom_vec_index_decreases(*components, i as int);
                                vstd::std_specs::vec::axiom_vec_index_decreases(*entries, k as int);
                                assert(components[i as int]->Object_0 == *entries);
                                assert(decreases_to!(components[i as int] => components[i as int]->Object_0));
                                assert(decreases_to!(entries[k as int] => entries[k as int].1));
                                assert(entries[k as int].1->Array_0 == *items);
                                assert(decreases_to!(entries[k as int].1 => entries[k as int].1->Array_0));
                                let es = component@->Object_0;
                                assert(obj_lookup(es, "children"@) == Some(JsonV::Array(items@.map_values(|c: Json| c@)))) by {
                                    assert(entries[k as int].1@->Array_0 =~= items@.map_values(|c: Json| c@));
                                }
                            }
                            match first_actionable_component(items) {
                                Some(action) => {
                                    proof {
                                        lemma_first_action_hit(cs, i as int);
                                    }
                                    return Some(action);
                                },
                                None => {},
                            }
                        },
                        _ => {},
                    },
                    None => {},
                }
            },
            _ => {},
        }
        proof {
            lemma_first_action_skip(cs, i as int);
        }
        i = i + 1;
    }
    assert(cs.skip(i as int).len() == 0);
    None
}

} // verus!
