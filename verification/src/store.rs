use vstd::prelude::*;

use crate::post::{clone_opt_string, clone_string, opt_str_view, Post, PostV};

verus! {

/// Why a store operation failed.
#[derive(Clone, Copy, PartialEq, Eq, Debug)]
pub enum StoreFailure {
    /// A required column was absent.
    Constraint,
    /// The underlying engine was unavailable (connection or lock failure).
    Unavailable,
}

/// Feed order between two posts: newer creation time first; ties in
/// creation time are broken by ascending identifier, which is insertion
/// order, since identifiers grow with each insert.
pub open spec fn feed_before(a: PostV, b: PostV) -> bool {
    a.created_at > b.created_at || (a.created_at == b.created_at && a.id < b.id)
}

/// Where a new post lands in a feed kept newest-first: after every post
/// created at its time or later, before every strictly older one.
pub open spec fn insert_desc(s: Seq<PostV>, p: PostV) -> Seq<PostV>
    decreases s.len(),
{
    if s.len() == 0 {
        seq![p]
    } else if s[0].created_at >= p.created_at {
        seq![s[0]] + insert_desc(s.drop_first(), p)
    } else {
        seq![p] + s
    }
}

/// The post table. Rows are kept in feed order (newest first, ties by
/// ascending identifier), so listing needs no further sorting; identifiers
/// are assigned monotonically starting at 1.
pub struct PostStore {
    pub posts: Vec<Post>,
    pub next_id: i64,
}

impl PostStore {
    /// The rows, as their mathematical views, in feed order.
    pub open spec fn rows(&self) -> Seq<PostV> {
        self.posts@.map_values(|p: Post| p@)
    }

    /// Store invariant: rows stand in strict feed order, every identifier
    /// is positive and below the next one to be assigned.
    pub open spec fn wf(&self) -> bool {
        &&& forall|i: int, j: int|
            0 <= i < j < self.rows().len() ==> feed_before(self.rows()[i], self.rows()[j])
        &&& forall|i: int| 0 <= i < self.rows().len() ==> 1 <= #[trigger] self.rows()[i].id
            < self.next_id
        &&& self.next_id >= 1
    }

    /// An empty store; the first post will get identifier 1.
    pub fn new() -> (r: PostStore)
        ensures
            r.wf(),
            r.rows() =~= Seq::<PostV>::empty(),
            r.next_id == 1,
    {
        PostStore { posts: Vec::new(), next_id: 1 }
    }

    /// Inserts a new row with the server-assigned identifier and the given
    /// creation time, keeping feed order, and returns the fully
    /// materialized row. Insertion is atomic: the row carries both paths as
    /// given, or (on an early failure) nothing is added at all.
    pub fn insert(
        &mut self,
        content: String,
        user: String,
        avatar_url: Option<String>,
        thumbnail_url: Option<String>,
        now: i64,
    ) -> (r: Result<Post, StoreFailure>)
        requires
            old(self).wf(),
            old(self).next_id < i64::MAX,
        ensures
            final(self).wf(),
            r is Ok,
            r->Ok_0@ == (PostV {
                id: old(self).next_id as int,
                content: content@,
                user: user@,
                avatar_url: opt_str_view(avatar_url),
                thumbnail_url: opt_str_view(thumbnail_url),
                created_at: now as int,
            }),
            final(self).rows() == insert_desc(old(self).rows(), r->Ok_0@),
            final(self).next_id == old(self).next_id + 1,
    {
        let ghost p = PostV {
            id: self.next_id as int,
            content: content@,
            user: user@,
            avatar_url: opt_str_view(avatar_url),
            thumbnail_url: opt_str_view(thumbnail_url),
            created_at: now as int,
        };
        let mut idx: usize = 0;
        while idx < self.posts.len() && self.posts[idx].created_at >= now
            invariant
                0 <= idx <= self.posts.len(),
                forall|i: int| 0 <= i < idx ==> self.rows()[i].created_at >= now as int,
            decreases self.posts.len() - idx,
        {
            idx += 1;
        }
        proof {
            if idx < self.posts.len() {
                assert(self.rows()[idx as int] == self.posts@[idx as int]@);
            }
            lemma_insert_desc_at(self.rows(), p, idx as int);
        }
        let row = Post {
            id: self.next_id,
            content: clone_string(&content),
            user: clone_string(&user),
            avatar_url: clone_opt_string(&avatar_url),
            thumbnail_url: clone_opt_string(&thumbnail_url),
            created_at: now,
        };
        let returned = Post {
            id: self.next_id,
            content,
            user,
            avatar_url,
            thumbnail_url,
            created_at: now,
        };
        let ghost old_rows = self.rows();
        self.posts.insert(idx, row);
        self.next_id = self.next_id + 1;
        proof {
            assert(self.rows() =~= old_rows.insert(idx as int, p));
            assert(self.rows() =~= insert_desc(old_rows, p));
            lemma_insert_keeps_order(old_rows, p, idx as int, self.rows());
        }
        Ok(returned)
    }

    /// All posts, newest first (most recent `created_at` first; ties by
    /// insertion order). Always succeeds.
    pub fn list_all(&self) -> (r: Result<&Vec<Post>, StoreFailure>)
        requires
            self.wf(),
        ensures
            r is Ok,
            r->Ok_0@.map_values(|p: Post| p@) == self.rows(),
    {
        Ok(&self.posts)
    }
}

/// Inserting at the index found by a front-to-back scan (first strictly
/// older row) lands the new row exactly where `insert_desc` puts it.
proof fn lemma_insert_desc_at(s: Seq<PostV>, p: PostV, idx: int)
    requires
        0 <= idx <= s.len(),
        forall|i: int| 0 <= i < idx ==> s[i].created_at >= p.created_at,
        idx < s.len() ==> s[idx].created_at < p.created_at,
    ensures
        insert_desc(s, p) =~= s.insert(idx, p),
    decreases idx,
{
    if idx == 0 {
        if s.len() == 0 {
            assert(insert_desc(s, p) =~= s.insert(0, p));
        } else {
            assert(s[0].created_at < p.created_at);
            assert(insert_desc(s, p) =~= seq![p] + s);
            assert(s.insert(0, p) =~= seq![p] + s);
        }
    } else {
        assert(s[0].created_at >= p.created_at);
        lemma_insert_desc_at(s.drop_first(), p, idx - 1);
        assert(insert_desc(s, p) == seq![s[0]] + insert_desc(s.drop_first(), p));
        assert(insert_desc(s.drop_first(), p) =~= s.drop_first().insert(idx - 1, p));
        assert(seq![s[0]] + s.drop_first().insert(idx - 1, p) =~= s.insert(idx, p));
    }
}

/// Inserting a strictly newest-identified post at a position that respects
/// the creation times keeps the feed in strict feed order.
proof fn lemma_insert_keeps_order(s: Seq<PostV>, p: PostV, idx: int, t: Seq<PostV>)
    requires
        0 <= idx <= s.len(),
        forall|i: int, j: int| 0 <= i < j < s.len() ==> feed_before(s[i], s[j]),
        forall|i: int| 0 <= i < idx ==> s[i].created_at >= p.created_at,
        idx < s.len() ==> s[idx].created_at < p.created_at,
        forall|i: int| 0 <= i < s.len() ==> s[i].id < p.id,
        t =~= s.insert(idx, p),
    ensures
        forall|i: int, j: int| 0 <= i < j < t.len() ==> feed_before(t[i], t[j]),
{
    s.insert_ensures(idx, p);
    assert forall|i: int, j: int| 0 <= i < j < t.len() implies feed_before(t[i], t[j]) by {
        if j < idx {
            assert(t[i] == s[i]);
            assert(t[j] == s[j]);
        } else if j == idx {
            assert(t[i] == s[i]);
            assert(t[j] == p);
            assert(s[i].created_at >= p.created_at);
            assert(s[i].id < p.id);
        } else {
            assert(t[j] == s[j - 1]);
            assert(s[j - 1].created_at < p.created_at) by {
                if j - 1 > idx {
                    assert(feed_before(s[idx], s[j - 1]));
                }
            };
            if i < idx {
                assert(t[i] == s[i]);
            } else if i == idx {
                assert(t[i] == p);
            } else {
                assert(t[i] == s[i - 1]);
                assert(feed_before(s[i - 1], s[j - 1]));
            }
        }
    }
}

/// Store ordering law: three posts created at strictly increasing times,
/// inserted in that order into an empty feed, come back newest first.
pub proof fn lemma_list_newest_first(p1: PostV, p2: PostV, p3: PostV)
    requires
        p1.created_at < p2.created_at,
        p2.created_at < p3.created_at,
    ensures
        insert_desc(insert_desc(insert_desc(Seq::<PostV>::empty(), p1), p2), p3) =~= seq![
            p3,
            p2,
            p1,
        ],
{
    let s1 = insert_desc(Seq::<PostV>::empty(), p1);
    assert(s1 =~= seq![p1]);
    let s2 = insert_desc(s1, p2);
    assert(s1[0].created_at < p2.created_at);
    assert(s2 =~= seq![p2, p1]);
    let s3 = insert_desc(s2, p3);
    assert(s2[0].created_at < p3.created_at);
    assert(s3 =~= seq![p3, p2, p1]);
}

} // verus!
