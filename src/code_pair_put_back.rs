use vstd::prelude::*;
use crate::code_pair::{CodePair, DxfResult, COMMENT_CODE};

verus! {

/// Whether an item of the record stream is a comment.
pub open spec fn is_comment(item: DxfResult<CodePair>) -> bool {
    item matches Ok(p) && p.code == COMMENT_CODE
}

/// The items of `s` without its comments, in order.
pub open spec fn strip_comments(s: Seq<DxfResult<CodePair>>) -> Seq<DxfResult<CodePair>>
    decreases s.len(),
{
    if s.len() == 0 {
        s
    } else if is_comment(s[0]) {
        strip_comments(s.drop_first())
    } else {
        seq![s[0]] + strip_comments(s.drop_first())
    }
}

/// A record stream with lookahead: items can be pushed back and are then
/// read again, the last one pushed first. Comments never come out of it.
pub struct CodePairPutBack {
    top: Vec<DxfResult<CodePair>>,
    /// The items not read yet, in reverse order (the next one last).
    rest: Vec<DxfResult<CodePair>>,
    utf8: bool,
}

impl CodePairPutBack {
    /// The items that `next` will hand out, in order.
    pub closed spec fn pending(&self) -> Seq<DxfResult<CodePair>> {
        self.top@.reverse() + strip_comments(self.rest@.reverse())
    }

    /// Whether text is to be read as UTF-8.
    pub closed spec fn reads_utf8(&self) -> bool {
        self.utf8
    }

    /// A stream over the given items, in that order.
    pub fn from_code_pair_iter(items: Vec<DxfResult<CodePair>>) -> (r: Self)
        ensures
            r.pending() == strip_comments(items@),
            !r.reads_utf8(),
    {
        let mut items = items;
        let mut rest: Vec<DxfResult<CodePair>> = Vec::new();
        let ghost all = items@;
        while items.len() > 0
            invariant
                items@ + rest@.reverse() == all,
            decreases items.len(),
        {
            let item = items.pop().unwrap();
            let ghost old_rest = rest@;
            rest.push(item);
            proof {
                assert(rest@.reverse() =~= seq![item] + old_rest.reverse());
                assert(items@ + rest@.reverse() =~= all);
            }
        }
        assert(items@ =~= Seq::<DxfResult<CodePair>>::empty());
        assert(rest@.reverse() =~= all);
        let r = CodePairPutBack { top: Vec::new(), rest, utf8: false };
        assert(r.top@.reverse() =~= Seq::<DxfResult<CodePair>>::empty());
        assert(r.pending() =~= strip_comments(all));
        r
    }

    /// Pushes one item back: it is the next one `next` hands out.
    pub fn put_back(&mut self, item: DxfResult<CodePair>)
        ensures
            final(self).pending() == seq![item] + old(self).pending(),
            final(self).reads_utf8() == old(self).reads_utf8(),
    {
        let ghost before = self.top@;
        self.top.push(item);
        proof {
            assert(self.top@.reverse() =~= seq![item] + before.reverse());
            assert(self.pending() =~= seq![item] + old(self).pending());
        }
    }

    /// Asks for text to be read as UTF-8 from now on.
    pub fn read_as_utf8(&mut self)
        ensures
            final(self).reads_utf8(),
            final(self).pending() == old(self).pending(),
    {
        self.utf8 = true;
    }

    /// The next item that is not a comment: pushed-back items first, the
    /// last pushed first, then the underlying items in order.
    pub fn next(&mut self) -> (r: Option<DxfResult<CodePair>>)
        ensures
            old(self).pending().len() == 0 ==> r is None && final(self).pending() == old(self).pending(),
            old(self).pending().len() > 0 ==> r == Some(old(self).pending()[0])
                && final(self).pending() == old(self).pending().drop_first(),
            final(self).reads_utf8() == old(self).reads_utf8(),
    {
        if self.top.len() > 0 {
            let ghost before = self.top@;
            let item = self.top.pop().unwrap();
            proof {
                assert(before =~= self.top@.push(item));
                assert(before.reverse() =~= seq![item] + self.top@.reverse());
                assert(old(self).pending() =~= seq![item] + self.pending());
                assert(old(self).pending().drop_first() =~= self.pending());
            }
            return Some(item);
        }
        assert(self.top@.reverse() =~= Seq::<DxfResult<CodePair>>::empty());
        assert(old(self).pending() =~= strip_comments(self.rest@.reverse()));
        loop
            invariant
                self.top@.len() == 0,
                self.utf8 == old(self).utf8,
                strip_comments(self.rest@.reverse()) == old(self).pending(),
            decreases self.rest@.len(),
        {
            let ghost before = self.rest@;
            match self.rest.pop() {
                None => {
                    assert(before =~= Seq::<DxfResult<CodePair>>::empty());
                    assert(before.reverse() =~= before);
                    assert(self.pending() =~= old(self).pending());
                    return None;
                },
                Some(item) => {
                    proof {
                        assert(before =~= self.rest@.push(item));
                        assert(before.reverse() =~= seq![item] + self.rest@.reverse());
                        assert((seq![item] + self.rest@.reverse()).drop_first()
                            =~= self.rest@.reverse());
                    }
                    let is_comment_item = match &item {
                        Ok(p) => p.code == COMMENT_CODE,
                        Err(_) => false,
                    };
                    if !is_comment_item {
                        assert(self.top@.reverse() =~= Seq::<DxfResult<CodePair>>::empty());
                        assert(old(self).pending() =~= seq![item] + self.pending());
                        assert(old(self).pending().drop_first() =~= self.pending());
                        return Some(item);
                    }
                },
            }
        }
    }
}

} // verus!
