//! Which cancellation token cancels which.
use crate::external::{cancel_called, token_lineage};
use tokio_util::sync::CancellationToken;
use vstd::prelude::*;

verus! {

/// Whether cancelling `token` cancels `other`.
pub open spec fn cancels(token: CancellationToken, other: CancellationToken) -> bool {
    token_lineage(token).is_prefix_of(token_lineage(other))
}

/// Whether a token is cancelled by a call on itself or on a token that cancels it. This is had only
/// after such a call.
pub open spec fn cancelled(token: CancellationToken) -> bool {
    exists|by: CancellationToken| cancel_called(by) && #[trigger] cancels(by, token)
}

/// Whether `child` was made to be cancelled with `parent`.
pub open spec fn child_of(child: CancellationToken, parent: CancellationToken) -> bool {
    &&& token_lineage(child).len() == token_lineage(parent).len() + 1
    &&& token_lineage(child).drop_last() == token_lineage(parent)
}

/// A token is cancelled with its parent, and with whatever cancels its parent. It does not cancel
/// its parent.
pub proof fn law_children_are_cancelled(
    token: CancellationToken,
    parent: CancellationToken,
    child: CancellationToken,
)
    requires
        child_of(child, parent),
        cancels(token, parent),
    ensures
        cancels(token, child),
        cancels(parent, child),
        !cancels(child, parent),
{
    let ghost kept = token_lineage(child).drop_last();
    assert(forall|i: int| 0 <= i < kept.len() ==> #[trigger] kept[i] == token_lineage(child)[i]);
    assert(token_lineage(parent) =~= token_lineage(child).subrange(
        0,
        token_lineage(parent).len() as int,
    ));
    assert(token_lineage(token) =~= token_lineage(child).subrange(
        0,
        token_lineage(token).len() as int,
    ));
}

/// Two different children of one token do not cancel each other, nor anything spawned under the
/// other.
pub proof fn law_siblings_are_left_alone(
    parent: CancellationToken,
    a: CancellationToken,
    b: CancellationToken,
    task: CancellationToken,
)
    requires
        child_of(a, parent),
        child_of(b, parent),
        token_lineage(a) != token_lineage(b),
        cancels(b, task),
    ensures
        !cancels(a, b),
        !cancels(b, a),
        !cancels(a, task),
{
    let of_a = token_lineage(a);
    let of_b = token_lineage(b);
    let of_task = token_lineage(task);
    assert(of_b.subrange(0, of_b.len() as int) =~= of_b);
    assert(of_a.subrange(0, of_a.len() as int) =~= of_a);
    if cancels(a, task) {
        assert(of_a == of_task.subrange(0, of_a.len() as int));
        assert(of_b == of_task.subrange(0, of_b.len() as int));
    }
}

/// A token cancels itself.
pub proof fn law_token_cancels_itself(token: CancellationToken)
    ensures
        cancels(token, token),
{
    assert(token_lineage(token) =~= token_lineage(token).subrange(
        0,
        token_lineage(token).len() as int,
    ));
}

/// A child is made one step below its parent: the tokens that cancel it are those that cancel its
/// parent, and itself.
pub proof fn law_child_is_one_below_its_parent(
    child: CancellationToken,
    parent: CancellationToken,
)
    ensures
        child_of(child, parent) <==> token_lineage(child).len() > 0 && token_lineage(child)
            == token_lineage(parent).push(token_lineage(child).last()),
{
    let of_child = token_lineage(child);
    let of_parent = token_lineage(parent);
    if child_of(child, parent) {
        assert(of_child =~= of_child.drop_last().push(of_child.last()));
    }
    if of_child.len() > 0 && of_child == of_parent.push(of_child.last()) {
        assert(of_child.drop_last() =~= of_parent);
    }
}

/// A token cancels those whose lineage goes through it, and no others.
pub proof fn law_cancels_what_descends(token: CancellationToken, other: CancellationToken)
    ensures
        cancels(token, other) <==> {
            &&& token_lineage(token).len() <= token_lineage(other).len()
            &&& forall|i: int|
                0 <= i < token_lineage(token).len() ==> #[trigger] token_lineage(token)[i]
                    == token_lineage(other)[i]
        },
{
    let of_token = token_lineage(token);
    let of_other = token_lineage(other);
    if cancels(token, other) {
        assert(of_token == of_other.subrange(0, of_token.len() as int));
    } else if of_token.len() <= of_other.len() && (forall|i: int|
        0 <= i < of_token.len() ==> #[trigger] of_token[i] == of_other[i]) {
        assert(of_token =~= of_other.subrange(0, of_token.len() as int));
    }
}

/// A token is cancelled when a token that cancels it has been, and not otherwise: a token all of
/// whose lineage is live is live.
pub proof fn law_cancelled_by_its_lineage_only(token: CancellationToken)
    ensures
        cancelled(token) <==> exists|by: CancellationToken|
            cancel_called(by) && #[trigger] token_lineage(by).is_prefix_of(token_lineage(token)),
        cancel_called(token) ==> cancelled(token),
{
    law_token_cancels_itself(token);
    if exists|by: CancellationToken|
        cancel_called(by) && #[trigger] token_lineage(by).is_prefix_of(token_lineage(token)) {
        let by = choose|by: CancellationToken|
            cancel_called(by) && #[trigger] token_lineage(by).is_prefix_of(token_lineage(token));
        assert(cancels(by, token));
    }
    if cancelled(token) {
        let by = choose|by: CancellationToken| cancel_called(by) && #[trigger] cancels(by, token);
        assert(token_lineage(by).is_prefix_of(token_lineage(token)));
    }
}

/// A child is cancelled only when its parent is, or by a call on a token of its own place in the
/// tree. So while nobody has made such a call, it lives as long as its parent.
pub proof fn law_child_lives_with_its_parent(child: CancellationToken, parent: CancellationToken)
    requires
        child_of(child, parent),
    ensures
        cancelled(child) <==> cancelled(parent) || exists|by: CancellationToken|
            cancel_called(by) && #[trigger] token_lineage(by) == token_lineage(child),
{
    let of_child = token_lineage(child);
    let of_parent = token_lineage(parent);
    law_child_is_one_below_its_parent(child, parent);
    if cancelled(child) {
        let by = choose|by: CancellationToken| cancel_called(by) && #[trigger] cancels(by, child);
        law_cancels_what_descends(by, child);
        law_cancels_what_descends(by, parent);
        if token_lineage(by).len() <= of_parent.len() {
            assert(cancels(by, parent));
        } else {
            assert(token_lineage(by) =~= of_child);
        }
    }
    if cancelled(parent) {
        let by = choose|by: CancellationToken| cancel_called(by) && #[trigger] cancels(by, parent);
        law_children_are_cancelled(by, parent, child);
    }
    if exists|by: CancellationToken|
        cancel_called(by) && #[trigger] token_lineage(by) == token_lineage(child) {
        let by = choose|by: CancellationToken|
            cancel_called(by) && #[trigger] token_lineage(by) == token_lineage(child);
        law_cancels_what_descends(by, child);
        assert(cancels(by, child));
    }
}

} // verus!
