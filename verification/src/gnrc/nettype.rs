//! Names of GNRC network types, for debug output
//!
//! The numbers of the network types come from RIOT's `gnrc_nettype_t` of the build, which has
//! the types of the network modules the build selects; they are handed in as [NetTypeNumbers].

use vstd::prelude::*;

verus! {

/// The numbers of the network types of a build
pub struct NetTypeNumbers {
    /// `GNRC_NETTYPE_TX_SYNC`
    pub tx_sync: i32,
    /// `GNRC_NETTYPE_NETIF`
    pub netif: i32,
    /// `GNRC_NETTYPE_UNDEF`, below the numbers of all protocol types
    pub undef: i32,
    /// `GNRC_NETTYPE_NUMOF`, above the numbers of all protocol types
    pub numof: i32,
    /// The protocol types that the build has, each with its name (such as `IPV6` or `UDP`), in
    /// the order in which they are looked up
    pub named: Vec<(i32, &'static str)>,
}

/// How a network type number is shown
#[derive(Debug, PartialEq, Eq)]
pub enum NetTypeLabel {
    /// A type of known name
    Named(&'static str),
    /// A protocol type number of the build whose name is not known here
    Unknown(i32),
    /// A number outside the range of network types
    Invalid(i32),
}

/// The name that the first entry of `named` with the number `t` gives, if any
pub open spec fn first_named(t: i32, named: Seq<(i32, &'static str)>) -> Option<&'static str>
    decreases named.len(),
{
    if named.len() == 0 {
        None
    } else if named[0].0 == t {
        Some(named[0].1)
    } else {
        first_named(t, named.drop_first())
    }
}

/// The label of the network type `t`: the fixed names of the three special types first, then
/// the names of the build's protocol types; other numbers between `undef` and `numof` are
/// unknown, and any further number is invalid.
pub open spec fn spec_nettype_label(t: i32, n: NetTypeNumbers) -> NetTypeLabel {
    if t == n.tx_sync {
        NetTypeLabel::Named("TX_SYNC")
    } else if t == n.netif {
        NetTypeLabel::Named("NETIF")
    } else if t == n.undef {
        NetTypeLabel::Named("undefined")
    } else {
        match first_named(t, n.named@) {
            Some(name) => NetTypeLabel::Named(name),
            None => if n.undef < t < n.numof {
                NetTypeLabel::Unknown(t)
            } else {
                NetTypeLabel::Invalid(t)
            },
        }
    }
}

/// The name a type number looks up is that of the first entry with that number, wherever it
/// stands in the list (the last one included); no entry with the number, no name.
pub proof fn law_first_named(t: i32, named: Seq<(i32, &'static str)>)
    ensures
        forall|j: int|
            0 <= j < named.len() && named[j].0 == t && (forall|k: int| 0 <= k < j ==> named[k].0 != t)
                ==> first_named(t, named) == Some(#[trigger] named[j].1),
        (forall|k: int| 0 <= k < named.len() ==> named[k].0 != t) ==> first_named(t, named) is None,
    decreases named.len(),
{
    if named.len() > 0 {
        law_first_named(t, named.drop_first());
        assert forall|j: int|
            0 <= j < named.len() && named[j].0 == t && (forall|k: int| 0 <= k < j ==> named[k].0 != t)
                implies first_named(t, named) == Some(#[trigger] named[j].1) by {
            if j > 0 {
                assert(named[0].0 != t);
                let rest = named.drop_first();
                assert(rest[j - 1] == named[j]);
                assert forall|k: int| 0 <= k < j - 1 implies rest[k].0 != t by {
                    assert(rest[k] == named[k + 1]);
                }
            }
        }
        if forall|k: int| 0 <= k < named.len() ==> named[k].0 != t {
            assert(named[0].0 != t);
            assert forall|k: int| 0 <= k < named.len() - 1 implies named.drop_first()[k].0 != t by {
                assert(named.drop_first()[k] == named[k + 1]);
            }
        }
    }
}

/// Label the network type `t` of a build with the type numbers `numbers`
pub fn nettype_label(t: i32, numbers: &NetTypeNumbers) -> (r: NetTypeLabel)
    ensures
        r == spec_nettype_label(t, *numbers),
        t == numbers.tx_sync ==> r == NetTypeLabel::Named("TX_SYNC"),
        t != numbers.tx_sync && t == numbers.netif ==> r == NetTypeLabel::Named("NETIF"),
        t != numbers.tx_sync && t != numbers.netif && t == numbers.undef ==> r
            == NetTypeLabel::Named("undefined"),
        forall|j: int|
            t != numbers.tx_sync && t != numbers.netif && t != numbers.undef && 0 <= j
                < numbers.named@.len() && numbers.named@[j].0 == t && (forall|k: int|
                0 <= k < j ==> numbers.named@[k].0 != t) ==> r == NetTypeLabel::Named(
                #[trigger] numbers.named@[j].1,
            ),
        t != numbers.tx_sync && t != numbers.netif && t != numbers.undef && (forall|k: int|
            0 <= k < numbers.named@.len() ==> numbers.named@[k].0 != t) ==> r == (if numbers.undef
            < t < numbers.numof {
            NetTypeLabel::Unknown(t)
        } else {
            NetTypeLabel::Invalid(t)
        }),
{
    proof {
        law_first_named(t, numbers.named@);
    }
    if t == numbers.tx_sync {
        return NetTypeLabel::Named("TX_SYNC");
    }
    if t == numbers.netif {
        return NetTypeLabel::Named("NETIF");
    }
    if t == numbers.undef {
        return NetTypeLabel::Named("undefined");
    }
    let mut i: usize = 0;
    assert(numbers.named@.subrange(0, numbers.named@.len() as int) =~= numbers.named@);
    while i < numbers.named.len()
        invariant
            i <= numbers.named@.len(),
            t != numbers.tx_sync && t != numbers.netif && t != numbers.undef,
            first_named(t, numbers.named@) == first_named(
                t,
                numbers.named@.subrange(i as int, numbers.named@.len() as int),
            ),
        decreases numbers.named@.len() - i,
    {
        let ghost rest = numbers.named@.subrange(i as int, numbers.named@.len() as int);
        let (number, name) = numbers.named[i];
        assert(rest[0] == (number, name));
        if number == t {
            proof {
                law_first_named(t, numbers.named@);
            }
            return NetTypeLabel::Named(name);
        }
        assert(rest.drop_first() =~= numbers.named@.subrange(i + 1, numbers.named@.len() as int));
        i = i + 1;
    }
    if numbers.undef < t && t < numbers.numof {
        NetTypeLabel::Unknown(t)
    } else {
        NetTypeLabel::Invalid(t)
    }
}

} // verus!
