use vstd::prelude::*;
use crate::errors::ErrorInfo;
use crate::eval::environment::{Environment, EvalResult};
use crate::eval::{object_owned_to_sequence, owned_listable, spec_owned_to_sequence};
use crate::value::Object;

verus! {

/// The value of a list of items: the empty sequence for none, the item
/// itself for one, else the sequence of them.
pub open spec fn spec_relax(items: Seq<Object>, v: Vec<Object>) -> Object {
    if items.len() == 0 {
        Object::Empty
    } else if items.len() == 1 {
        items[0]
    } else {
        Object::Sequence(v)
    }
}

/// The items as a value, in the unchanged scope (see `spec_relax`).
pub fn relax(env: Box<Environment>, items: Vec<Object>) -> (r: EvalResult)
    ensures
        r matches Ok((e, o)) && e == env && o == spec_relax(items@, items),
{
    if items.len() == 0 {
        Ok((env, Object::Empty))
    } else if items.len() == 1 {
        let mut items = items;
        Ok((env, items.remove(0)))
    } else {
        Ok((env, Object::Sequence(items)))
    }
}

/// Whether `o` is the value of the list `items`: the empty sequence for
/// none, the item itself for one, else a sequence of them.
pub open spec fn relaxed_value(o: Object, items: Seq<Object>) -> bool {
    &&& items.len() == 0 ==> o is Empty
    &&& items.len() == 1 ==> o == items[0]
    &&& items.len() > 1 ==> (o matches Object::Sequence(v) && v@ == items)
}

/// Whether `op` took the items in turn, each in the scope the one before
/// left: from scope `envs[i]` it gave `outs[i]` for `items[i]` and left the
/// scope `envs[i + 1]`.
pub open spec fn processed<F: Fn(Box<Environment>, Object) -> EvalResult>(
    op: F,
    items: Seq<Object>,
    envs: Seq<Box<Environment>>,
    outs: Seq<Object>,
) -> bool {
    &&& envs.len() == items.len() + 1
    &&& outs.len() == items.len()
    &&& forall|i: int|
        0 <= i < items.len() ==> #[trigger] call_ensures(
            op,
            (envs[i], items[i]),
            Ok::<(Box<Environment>, Object), ErrorInfo>((envs[i + 1], outs[i])),
        )
}

/// Applies `op` to each item of a value in turn (a range is one item),
/// threading the scope through, and gives the results as one value; the
/// first error stops it.
pub fn process_items<F: Fn(Box<Environment>, Object) -> EvalResult>(
    env: Box<Environment>,
    object: Object,
    op: F,
) -> (r: EvalResult)
    requires
        owned_listable(object),
        forall|e: Box<Environment>, o: Object| call_requires(op, (e, o)),
    ensures
        match r {
            Ok((e, o)) => exists|envs: Seq<Box<Environment>>, outs: Seq<Object>|
                #![trigger processed(op, spec_owned_to_sequence(object), envs, outs)]
                processed(op, spec_owned_to_sequence(object), envs, outs) && envs[0] == env && envs.last() == e
                    && relaxed_value(o, outs),
            Err(err) => exists|k: int, envs: Seq<Box<Environment>>, outs: Seq<Object>|
                #![trigger processed(op, spec_owned_to_sequence(object).take(k), envs, outs)]
                0 <= k < spec_owned_to_sequence(object).len() && processed(
                    op,
                    spec_owned_to_sequence(object).take(k),
                    envs,
                    outs,
                ) && envs[0] == env && call_ensures(
                    op,
                    (envs.last(), spec_owned_to_sequence(object)[k]),
                    Err::<(Box<Environment>, Object), ErrorInfo>(err),
                ),
        },
{
    let ghost all = spec_owned_to_sequence(object);
    let items = object_owned_to_sequence(object);
    let n: usize = items.len();
    let mut rest = items;
    let mut current_env = env;
    let mut result: Vec<Object> = Vec::new();
    let ghost mut envs: Seq<Box<Environment>> = seq![env];
    let mut i: usize = 0;
    while i < n
        invariant
            all == spec_owned_to_sequence(object),
            n == all.len(),
            i <= n,
            rest@ == all.subrange(i as int, n as int),
            forall|e: Box<Environment>, o: Object| call_requires(op, (e, o)),
            processed(op, all.take(i as int), envs, result@),
            envs[0] == env,
            envs.last() == current_env,
        decreases n - i,
    {
        let item = rest.remove(0);
        proof {
            assert(item == all[i as int]);
            assert(rest@ =~= all.subrange(i + 1, n as int));
        }
        let res = op(current_env, item);
        match res {
            Ok((new_env, value)) => {
                let ghost old_envs = envs;
                let ghost old_outs = result@;
                proof {
                    envs = envs.push(new_env);
                }
                result.push(value);
                current_env = new_env;
                proof {
                    let t = all.take(i + 1);
                    assert forall|j: int| 0 <= j < t.len() implies #[trigger] call_ensures(
                        op,
                        (envs[j], t[j]),
                        Ok::<(Box<Environment>, Object), ErrorInfo>((envs[j + 1], result@[j])),
                    ) by {
                        if j < i {
                            assert(t[j] == all.take(i as int)[j]);
                            assert(call_ensures(
                                op,
                                (old_envs[j], all.take(i as int)[j]),
                                Ok::<(Box<Environment>, Object), ErrorInfo>((old_envs[j + 1], old_outs[j])),
                            ));
                        }
                    }
                }
            },
            Err(err) => {
                proof {
                    assert(call_ensures(op, (envs.last(), all[i as int]), Err::<(Box<Environment>, Object), ErrorInfo>(err)));
                    assert(processed(op, all.take(i as int), envs, result@));
                }
                return Err(err);
            },
        }
        i = i + 1;
    }
    proof {
        assert(all.take(n as int) =~= all);
        assert(processed(op, all, envs, result@));
    }
    let ghost outs = result@;
    let r = relax(current_env, result);
    proof {
        assert(relaxed_value(r->Ok_0.1, outs));
    }
    r
}

/// Whether every item, at any depth of nested sequences, is a node or an
/// empty sequence.
pub open spec fn nodes_only(items: Seq<Object>) -> bool
    decreases items,
{
    if items.len() == 0 {
        true
    } else {
        nodes_only(items.drop_last()) && match items.last() {
            Object::Empty => true,
            Object::Sequence(inner) => nodes_only(inner@),
            Object::Node(_) => true,
            _ => false,
        }
    }
}

/// The nodes of a list of items, nested sequences spliced in and empty
/// sequences left out.
pub open spec fn joined(items: Seq<Object>) -> Seq<Object>
    decreases items,
{
    if items.len() == 0 {
        Seq::empty()
    } else {
        joined(items.drop_last()) + match items.last() {
            Object::Sequence(inner) => joined(inner@),
            Object::Node(n) => seq![items.last()],
            _ => Seq::empty(),
        }
    }
}

/// Appends the nodes of `seq` to `result` (see `joined`); the items must be
/// nodes, empty sequences or sequences of such.
pub fn join_sequences(result: &mut Vec<Object>, seq: Vec<Object>)
    requires
        nodes_only(seq@),
    ensures
        final(result)@ == old(result)@ + joined(seq@),
    decreases seq@,
{
    let ghost all = seq@;
    let n: usize = seq.len();
    let mut rest = seq;
    let mut i: usize = 0;
    proof {
        assert(all.subrange(0, 0) =~= Seq::<Object>::empty());
        assert(result@ =~= old(result)@ + joined(all.subrange(0, 0)));
    }
    while i < n
        invariant
            n == all.len(),
            all == seq@,
            i <= n,
            rest@ == all.subrange(i as int, n as int),
            nodes_only(all),
            result@ == old(result)@ + joined(all.subrange(0, i as int)),
        decreases n - i,
    {
        let item = rest.remove(0);
        let ghost pre = all.subrange(0, i + 1);
        proof {
            assert(item == all[i as int]);
            assert(pre.drop_last() =~= all.subrange(0, i as int));
            lemma_nodes_only_prefix(all, i + 1);
        }
        match item {
            Object::Empty => {
                proof {
                    assert(result@ =~= old(result)@ + joined(pre));
                }
            },
            Object::Sequence(items) => {
                proof {
                    assert(decreases_to!(all => all[i as int]));
                }
                join_sequences(result, items);
                proof {
                    assert(result@ =~= old(result)@ + joined(pre));
                }
            },
            Object::Node(..) => {
                let ghost before = result@;
                result.push(item);
                proof {
                    assert(result@ =~= old(result)@ + joined(pre));
                }
            },
            _ => {
                proof {
                    assert(false);
                }
            },
        }
        proof {
            assert(rest@ =~= all.subrange(i + 1, n as int));
        }
        i = i + 1;
    }
    proof {
        assert(all.subrange(0, n as int) =~= all);
    }
}

proof fn lemma_nodes_only_prefix(items: Seq<Object>, k: int)
    requires
        nodes_only(items),
        0 <= k <= items.len(),
    ensures
        nodes_only(items.subrange(0, k)),
    decreases items.len() - k,
{
    if k < items.len() {
        lemma_nodes_only_prefix(items, k + 1);
        let w = items.subrange(0, k + 1);
        assert(w.drop_last() =~= items.subrange(0, k));
    } else {
        assert(items.subrange(0, k) =~= items);
    }
}

/// The items of a list with nested sequences spliced in and empty sequences
/// and absent values left out.
pub open spec fn relaxed(items: Seq<Object>) -> Seq<Object>
    decreases items,
{
    if items.len() == 0 {
        Seq::empty()
    } else {
        relaxed(items.drop_last()) + match items.last() {
            Object::Nothing => Seq::empty(),
            Object::Empty => Seq::empty(),
            Object::Sequence(inner) => relaxed(inner@),
            _ => seq![items.last()],
        }
    }
}

/// Appends the items of `seq` to `result` (see `relaxed`).
pub fn relax_sequences(result: &mut Vec<Object>, seq: Vec<Object>)
    ensures
        final(result)@ == old(result)@ + relaxed(seq@),
    decreases seq@,
{
    let ghost all = seq@;
    let n: usize = seq.len();
    let mut rest = seq;
    let mut i: usize = 0;
    proof {
        assert(all.subrange(0, 0) =~= Seq::<Object>::empty());
        assert(result@ =~= old(result)@ + relaxed(all.subrange(0, 0)));
    }
    while i < n
        invariant
            n == all.len(),
            all == seq@,
            i <= n,
            rest@ == all.subrange(i as int, n as int),
            result@ == old(result)@ + relaxed(all.subrange(0, i as int)),
        decreases n - i,
    {
        let item = rest.remove(0);
        let ghost pre = all.subrange(0, i + 1);
        proof {
            assert(item == all[i as int]);
            assert(pre.drop_last() =~= all.subrange(0, i as int));
        }
        match item {
            Object::Nothing | Object::Empty => {
                proof {
                    assert(result@ =~= old(result)@ + relaxed(pre));
                }
            },
            Object::Sequence(items) => {
                proof {
                    assert(decreases_to!(all => all[i as int]));
                }
                relax_sequences(result, items);
                proof {
                    assert(result@ =~= old(result)@ + relaxed(pre));
                }
            },
            _ => {
                result.push(item);
                proof {
                    assert(result@ =~= old(result)@ + relaxed(pre));
                }
            },
        }
        proof {
            assert(rest@ =~= all.subrange(i + 1, n as int));
        }
        i = i + 1;
    }
    proof {
        assert(all.subrange(0, n as int) =~= all);
    }
}


/// What `relax_sequences` appends holds no sequence, no empty sequence and
/// no absent value.
pub proof fn law_relaxed_is_flat(items: Seq<Object>)
    ensures
        forall|i: int| 0 <= i < relaxed(items).len() ==> !(relaxed(items)[i] is Sequence) && !(
        relaxed(items)[i] is Empty) && !(relaxed(items)[i] is Nothing),
    decreases items,
{
    if items.len() > 0 {
        law_relaxed_is_flat(items.drop_last());
        match items.last() {
            Object::Sequence(inner) => {
                law_relaxed_is_flat(inner@);
            },
            _ => {},
        }
        let a = relaxed(items.drop_last());
        let b = match items.last() {
            Object::Nothing => Seq::empty(),
            Object::Empty => Seq::empty(),
            Object::Sequence(inner) => relaxed(inner@),
            _ => seq![items.last()],
        };
        assert(relaxed(items) == a + b);
        assert forall|i: int| 0 <= i < (a + b).len() implies !((a + b)[i] is Sequence) && !((a + b)[i] is Empty)
            && !((a + b)[i] is Nothing) by {
            if i >= a.len() {
                assert((a + b)[i] == b[i - a.len()]);
            }
        }
    }
}

/// What `join_sequences` appends is nodes only.
pub proof fn law_joined_are_nodes(items: Seq<Object>)
    ensures
        forall|i: int| 0 <= i < joined(items).len() ==> joined(items)[i] is Node,
    decreases items,
{
    if items.len() > 0 {
        law_joined_are_nodes(items.drop_last());
        match items.last() {
            Object::Sequence(inner) => {
                law_joined_are_nodes(inner@);
            },
            _ => {},
        }
        let a = joined(items.drop_last());
        let b = match items.last() {
            Object::Sequence(inner) => joined(inner@),
            Object::Node(n) => seq![items.last()],
            _ => Seq::empty(),
        };
        assert(joined(items) == a + b);
        assert forall|i: int| 0 <= i < (a + b).len() implies (a + b)[i] is Node by {
            if i >= a.len() {
                assert((a + b)[i] == b[i - a.len()]);
            }
        }
    }
}

} // verus!
