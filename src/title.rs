//! Merge request titles: ticket tags, then the target branch tag, then the plain title.
use vstd::prelude::*;

verus! {

/// `s` wrapped in square brackets.
pub open spec fn bracketed(s: Seq<char>) -> Seq<char> {
    seq!['['] + s + seq![']']
}

/// Each ticket id in brackets, in the order given, with nothing between them.
pub open spec fn ticket_sections(ids: Seq<Seq<char>>) -> Seq<char>
    decreases ids.len(),
{
    if ids.len() == 0 {
        Seq::empty()
    } else {
        ticket_sections(ids.drop_last()) + bracketed(ids.last())
    }
}

/// The full title: ticket tags, the target branch tag, one space, the plain title.
pub open spec fn title_of(plain: Seq<char>, branch: Seq<char>, ids: Seq<Seq<char>>) -> Seq<char> {
    ticket_sections(ids) + bracketed(branch) + seq![' '] + plain
}

/// Builds the title of the merge request into `target_branch`.
pub fn create_title(plain_title: &str, target_branch: &str, jira_ticket_ids: Vec<String>) -> (r:
    String)
    ensures
        r@ == title_of(plain_title@, target_branch@, jira_ticket_ids.deep_view()),
{
    let ghost ids = jira_ticket_ids.deep_view();
    proof {
        reveal_strlit("[");
        reveal_strlit("]");
        reveal_strlit("] ");
    }
    let mut r = String::new();
    let mut i: usize = 0;
    while i < jira_ticket_ids.len()
        invariant
            i <= jira_ticket_ids.len(),
            ids == jira_ticket_ids.deep_view(),
            r@ == ticket_sections(ids.take(i as int)),
        decreases jira_ticket_ids.len() - i,
    {
        let ghost before = r@;
        r.append("[");
        r.append(jira_ticket_ids[i].as_str());
        r.append("]");
        proof {
            reveal_strlit("[");
            reveal_strlit("]");
            assert(ids[i as int] == jira_ticket_ids[i as int]@);
            assert(ids.take(i + 1).drop_last() =~= ids.take(i as int));
            assert(r@ =~= before + bracketed(ids[i as int]));
        }
        i += 1;
    }
    assert(ids.take(i as int) =~= ids);
    r.append("[");
    r.append(target_branch);
    r.append("] ");
    r.append(plain_title);
    assert(r@ =~= title_of(plain_title@, target_branch@, ids));
    r
}

/// With no ticket ids the title is the branch in brackets, a space, and the plain title.
pub proof fn lemma_title_without_tickets(plain: Seq<char>, branch: Seq<char>)
    ensures
        title_of(plain, branch, Seq::empty()) == seq!['['] + branch + seq![']', ' '] + plain,
{
    assert(title_of(plain, branch, Seq::empty()) =~= seq!['['] + branch + seq![']', ' '] + plain);
}

/// The tags of two lists one after the other are the tags of the joined list.
pub proof fn lemma_ticket_sections_concat(a: Seq<Seq<char>>, b: Seq<Seq<char>>)
    ensures
        ticket_sections(a + b) == ticket_sections(a) + ticket_sections(b),
    decreases b.len(),
{
    if b.len() == 0 {
        assert(a + b =~= a);
        assert(ticket_sections(a) + ticket_sections(b) =~= ticket_sections(a));
    } else {
        assert((a + b).drop_last() =~= a + b.drop_last());
        lemma_ticket_sections_concat(a, b.drop_last());
        assert(ticket_sections(a + b) =~= ticket_sections(a) + ticket_sections(b));
    }
}

/// Every ticket id stands in the title, bracketed and unchanged, after the tags of
/// the ids before it and before the tags of the ids after it: the ids keep their order.
pub proof fn lemma_tickets_in_order(plain: Seq<char>, branch: Seq<char>, ids: Seq<Seq<char>>, i: int)
    requires
        0 <= i < ids.len(),
    ensures
        title_of(plain, branch, ids) == ticket_sections(ids.take(i)) + bracketed(ids[i])
            + ticket_sections(ids.skip(i + 1)) + bracketed(branch) + seq![' '] + plain,
{
    let before = ids.take(i);
    let after = ids.skip(i + 1);
    assert(ids =~= (before + seq![ids[i]]) + after);
    lemma_ticket_sections_concat(before + seq![ids[i]], after);
    assert((before + seq![ids[i]]).drop_last() =~= before);
    assert(ticket_sections(before + seq![ids[i]]) == ticket_sections(before) + bracketed(ids[i]));
    assert(title_of(plain, branch, ids) =~= ticket_sections(before) + bracketed(ids[i])
        + ticket_sections(after) + bracketed(branch) + seq![' '] + plain);
}

} // verus!
