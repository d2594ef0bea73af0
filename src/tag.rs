use vstd::prelude::*;

verus! {

/// A correlation token scoping a reply to its originating request or link.
#[derive(Clone, Copy, Debug, PartialEq, Eq, Structural)]
pub struct Tag {
    pub id: u64,
}

/// The per-unit generator of tags.
///
/// Tags are handed out in increasing order, so every tag issued so far has an
/// id below `next`, and a fresh tag differs from all of them.
#[derive(Debug)]
pub struct TagSource {
    next: u64,
}

impl TagSource {
    /// Whether `t` has been handed out by this source.
    pub closed spec fn issued(&self, t: Tag) -> bool {
        t.id < self.next
    }

    /// Whether another tag can still be handed out.
    pub closed spec fn can_issue(&self) -> bool {
        self.next < u64::MAX
    }

    pub fn new() -> (r: TagSource)
        ensures
            forall|t: Tag| !r.issued(t),
            r.can_issue(),
    {
        TagSource { next: 0 }
    }

    /// Whether another tag can still be handed out.
    pub fn has_next(&self) -> (r: bool)
        ensures
            r == self.can_issue(),
    {
        self.next < u64::MAX
    }

    /// Hands out a tag that differs from every tag issued before.
    pub fn fresh(&mut self) -> (r: Tag)
        requires
            old(self).can_issue(),
        ensures
            !old(self).issued(r),
            final(self).issued(r),
            forall|t: Tag| old(self).issued(t) ==> final(self).issued(t),
            forall|t: Tag| final(self).issued(t) ==> old(self).issued(t) || t == r,
    {
        let t = Tag { id: self.next };
        self.next = self.next + 1;
        t
    }
}

/// Two tags generated in turn by the same source are never equal, and the
/// first is still known to the source when the second is generated.
pub proof fn lemma_fresh_tags_distinct(s0: TagSource, s1: TagSource, a: Tag, b: Tag)
    requires
        !s0.issued(a),
        s1.issued(a),
        !s1.issued(b),
    ensures
        a != b,
{
}

} // verus!
