//! Property analysis: a property is kept exactly when its type has a
//! defined transfer across the boundary.

use vstd::prelude::*;

use crate::conversion_type::{spec_of, ConversionType};
use crate::env::Env;
use crate::library::{clone_property, Property, PropertyView};

verus! {

/// The properties that survive analysis, in declaration order.
pub open spec fn spec_supported_properties(env: &Env, props: Seq<PropertyView>) -> Seq<
    PropertyView,
>
    decreases props.len(),
{
    if props.len() == 0 {
        Seq::empty()
    } else {
        let prefix = spec_supported_properties(env, props.drop_last());
        let p = props.last();
        if spec_of(&env.library, p.typ) != ConversionType::Unknown {
            prefix.push(p)
        } else {
            prefix
        }
    }
}

/// Analyze the declared properties of one type, keeping those whose
/// type can cross the boundary.
pub fn analyze(env: &Env, properties: &Vec<Property>) -> (r: Vec<Property>)
    ensures
        r.deep_view() == spec_supported_properties(env, properties.deep_view()),
{
    let ghost all = properties.deep_view();
    let mut r: Vec<Property> = Vec::new();
    proof {
        assert(all.take(0) =~= Seq::<PropertyView>::empty());
        assert(r.deep_view() =~= spec_supported_properties(env, all.take(0)));
    }
    let mut k: usize = 0;
    while k < properties.len()
        invariant
            k <= all.len(),
            all == properties.deep_view(),
            all.len() == properties@.len(),
            r.deep_view() == spec_supported_properties(env, all.take(k as int)),
        decreases all.len() - k,
    {
        let prop = &properties[k];
        proof {
            assert(all[k as int] == prop@);
            assert(all.take(k + 1).drop_last() =~= all.take(k as int));
            assert(all.take(k + 1).last() == all[k as int]);
        }
        let class = ConversionType::of(&env.library, prop.typ);
        if !matches!(class, ConversionType::Unknown) {
            r.push(clone_property(prop));
            proof {
                assert(r.deep_view() =~= spec_supported_properties(env, all.take(k as int)).push(
                    prop@,
                ));
            }
        }
        k += 1;
    }
    proof {
        assert(all.take(all.len() as int) =~= all);
    }
    r
}

} // verus!
