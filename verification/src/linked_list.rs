//! A small singly linked list of integers, with in-place reversal and
//! structural copying.

use vstd::prelude::*;

verus! {

/// One node of a singly linked list of integers.
#[derive(PartialEq, Eq, Debug)]
pub struct ListNode {
    pub val: i32,
    pub next: Option<Box<ListNode>>,
}

/// The values a list holds, front to back.
pub open spec fn list_view(node: Option<Box<ListNode>>) -> Seq<i32>
    decreases node,
{
    match node {
        None => Seq::empty(),
        Some(n) => seq![n.val] + list_view(n.next),
    }
}

/// Reversing a list that starts with `v` puts `v` last.
proof fn lemma_reverse_unfold(v: i32, s: Seq<i32>)
    ensures
        (seq![v] + s).reverse() =~= s.reverse() + seq![v],
{
}

/// Reverses a list in place, returning the new head: the returned list
/// holds the same values in the opposite order.
pub fn reverse_list(node: Option<Box<ListNode>>) -> (r: Option<Box<ListNode>>)
    ensures
        list_view(r) == list_view(node).reverse(),
{
    let ghost orig = list_view(node);
    let mut prev: Option<Box<ListNode>> = None;
    let mut cur = node;
    loop
        invariant
            orig.reverse() == list_view(cur).reverse() + list_view(prev),
        ensures
            orig.reverse() == list_view(prev),
        decreases list_view(cur).len(),
    {
        match cur {
            None => {
                proof {
                    assert(list_view(cur).reverse() =~= Seq::<i32>::empty());
                }
                break ;
            },
            Some(mut n) => {
                let ghost old_prev = list_view(prev);
                let ghost rest = list_view(n.next);
                let next = n.next.take();
                n.next = prev.take();
                proof {
                    lemma_reverse_unfold(n.val, rest);
                    assert(list_view(Some(n)) =~= seq![n.val] + old_prev);
                    assert(orig.reverse() =~= list_view(next).reverse() + list_view(Some(n)));
                }
                prev = Some(n);
                cur = next;
            },
        }
    }
    prev
}

/// Returns a structurally fresh copy of the list: the copy holds exactly
/// the values of the original, in the same order.
pub fn copy_list(node: Option<Box<ListNode>>) -> (r: Option<Box<ListNode>>)
    ensures
        list_view(r) == list_view(node),
    decreases node,
{
    match node {
        None => None,
        Some(n) => {
            let rest = copy_list(n.next);
            proof {
                assert(list_view(Some(Box::new(ListNode { val: n.val, next: rest })))
                    =~= seq![n.val] + list_view(rest));
            }
            Some(Box::new(ListNode { val: n.val, next: rest }))
        },
    }
}

} // verus!
