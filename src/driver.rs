use vstd::prelude::*;
use crate::body::{replace_shell, transform_body};
use crate::emit::{decimal_text, detail_url, file_name, md_extension};
use crate::model::{header_of, to_header, Post, PostHeader};

verus! {

/// Where a run stands.
#[derive(Clone, Copy, Debug, PartialEq, Eq, Structural)]
pub enum Stage {
    /// Waiting for the list of posts.
    AwaitList,
    /// Waiting for the full form of the current post.
    AwaitDetail,
    /// Waiting for the current post's file to be written.
    AwaitWrite,
    /// Every post is written.
    Done,
    /// A step failed; nothing more is attempted.
    Failed,
}

/// What the outside world reports back after performing an action.
#[derive(Debug)]
pub enum Event {
    /// The list endpoint answered with these posts.
    ListFetched(Vec<Post>),
    /// The detail endpoint answered with this post.
    DetailFetched(Post),
    /// The file of the current post is written.
    Written,
    /// The last action failed: fetch, decode, serialization or file error.
    Failed,
}

/// What the outside world is asked to do next.
#[derive(Debug)]
pub enum Action {
    /// Fetch the list of posts from this address.
    FetchList(String),
    /// Fetch one post in full from this address.
    FetchDetail(String),
    /// Render `header`, then write the framed file under `file_name` in the
    /// output directory, replacing any file of that name.
    Write { file_name: String, header: PostHeader, body: String },
    /// The run is complete.
    Finish,
    /// The run is aborted.
    Abort,
}

/// The decisions of one run: fetch the list, then for each listed post in
/// order fetch it in full and write its file; stop at the first failure.
#[derive(Debug)]
pub struct Driver {
    pub base_url: String,
    pub posts: Vec<Post>,
    pub next: usize,
    pub stage: Stage,
}

/// The address of the listed post at `k`.
pub open spec fn detail_address(d: Driver, k: int) -> Seq<char> {
    d.base_url@ + decimal_text(d.posts@[k].id as int)
}

/// The action that asks for the listed post at `k` in full.
pub open spec fn fetches(d: Driver, k: int, a: Action) -> bool {
    a matches Action::FetchDetail(u) && u@ == detail_address(d, k)
}

/// The action that writes the file of the listed post at `k` from its full
/// form `p`: named after the listed title, with `p`'s front matter and body.
pub open spec fn writes(d: Driver, k: int, p: Post, a: Action) -> bool {
    a matches Action::Write { file_name, header, body } && file_name@ == d.posts@[k].title@
        + md_extension() && header@ == header_of(p) && body@ == replace_shell(p.content@)
}

/// After the post at `k` is done: the next one is fetched, or the run is done.
pub open spec fn advanced(d: Driver, k: int, a: Action) -> bool {
    if k == d.posts@.len() {
        d.stage == Stage::Done && a is Finish
    } else {
        d.stage == Stage::AwaitDetail && fetches(d, k, a)
    }
}

/// One step of a run, from `d` on event `ev` to `e` with action `a`.
pub open spec fn step(d: Driver, ev: Event, e: Driver, a: Action) -> bool {
    &&& e.base_url@ == d.base_url@
    &&& match (d.stage, ev) {
        (Stage::Done, _) => e == d && a is Finish,
        (Stage::Failed, _) => e == d && a is Abort,
        (Stage::AwaitList, Event::ListFetched(ps)) => e.posts@ == ps@ && e.next == 0 && advanced(
            e,
            0,
            a,
        ),
        (Stage::AwaitDetail, Event::DetailFetched(p)) => e.posts@ == d.posts@ && e.next == d.next
            && e.stage == Stage::AwaitWrite && writes(d, d.next as int, p, a),
        (Stage::AwaitWrite, Event::Written) => e.posts@ == d.posts@ && e.next == d.next + 1
            && advanced(e, e.next as int, a),
        _ => e.posts@ == d.posts@ && e.next == d.next && e.stage == Stage::Failed && a is Abort,
    }
}

impl Driver {
    /// Every post being worked on is one of the listed posts.
    pub open spec fn wf(&self) -> bool {
        &&& self.next <= self.posts@.len()
        &&& (self.stage == Stage::AwaitDetail || self.stage == Stage::AwaitWrite) ==> self.next
            < self.posts@.len()
    }

    /// A run against the list endpoint at `base_url`, before anything is
    /// fetched.
    pub fn new(base_url: String) -> (r: Driver)
        ensures
            r.wf(),
            r.base_url@ == base_url@,
            r.posts@.len() == 0,
            r.next == 0,
            r.stage == Stage::AwaitList,
    {
        Driver { base_url, posts: Vec::new(), next: 0, stage: Stage::AwaitList }
    }

    /// The first action of a run: fetch the list.
    pub fn start(&self) -> (r: Action)
        ensures
            r matches Action::FetchList(u) && u@ == self.base_url@,
    {
        Action::FetchList(String::from_str(self.base_url.as_str()))
    }

    fn fetch_or_finish(&mut self) -> (r: Action)
        requires
            old(self).next <= old(self).posts@.len(),
        ensures
            final(self).wf(),
            final(self).base_url == old(self).base_url,
            final(self).posts == old(self).posts,
            final(self).next == old(self).next,
            advanced(*final(self), final(self).next as int, r),
    {
        if self.next == self.posts.len() {
            self.stage = Stage::Done;
            Action::Finish
        } else {
            self.stage = Stage::AwaitDetail;
            Action::FetchDetail(detail_url(self.base_url.as_str(), self.posts[self.next].id))
        }
    }

    /// Takes the outcome of the last action and decides the next one.
    pub fn on_event(&mut self, ev: Event) -> (r: Action)
        requires
            old(self).wf(),
        ensures
            final(self).wf(),
            step(*old(self), ev, *final(self), r),
    {
        match self.stage {
            Stage::Done => {
                return Action::Finish;
            },
            Stage::Failed => {
                return Action::Abort;
            },
            _ => {},
        }
        match ev {
            Event::ListFetched(ps) => {
                if self.stage == Stage::AwaitList {
                    self.posts = ps;
                    self.next = 0;
                    return self.fetch_or_finish();
                }
            },
            Event::DetailFetched(p) => {
                if self.stage == Stage::AwaitDetail {
                    let k = self.next;
                    self.stage = Stage::AwaitWrite;
                    return Action::Write {
                        file_name: file_name(self.posts[k].title.as_str()),
                        header: to_header(&p),
                        body: transform_body(p.content.as_str()),
                    };
                }
            },
            Event::Written => {
                if self.stage == Stage::AwaitWrite {
                    let listed = self.posts.len();
                    proof {
                        assert(self.next < listed);
                    }
                    self.next = self.next + 1;
                    return self.fetch_or_finish();
                }
            },
            Event::Failed => {},
        }
        self.stage = Stage::Failed;
        Action::Abort
    }
}

} // verus!
