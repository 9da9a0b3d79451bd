use vstd::prelude::*;
use crate::timestamp::{rfc3339_utc, Timestamp};

verus! {

/// The user behind an author.
#[derive(Debug)]
pub struct User {
    pub first_name: String,
    pub last_name: String,
}

/// A post's author: a user and a photo reference.
#[derive(Debug)]
pub struct Author {
    pub user: User,
    pub photo: String,
}

/// A tag attached to a post.
#[derive(Debug)]
pub struct Tag {
    pub id: i32,
    pub tag: String,
    pub description: String,
}

/// A post as the API returns it. The list endpoint leaves `content` empty;
/// the detail endpoint fills it.
#[derive(Debug)]
pub struct Post {
    pub id: i32,
    pub author: Author,
    pub tags: Vec<Tag>,
    pub title: String,
    pub summary: String,
    pub content: String,
    pub published_date: Timestamp,
}

/// The tag grouping of the front matter.
#[derive(Debug)]
pub struct Taxonomies {
    pub tags: Vec<String>,
}

/// The free-form block of the front matter.
#[derive(Debug)]
pub struct Extras {
    pub author: String,
    pub summary: String,
}

/// The front matter written at the top of a post's file.
#[derive(Debug)]
pub struct PostHeader {
    pub title: String,
    pub description: String,
    pub date: String,
    pub authors: Vec<String>,
    pub taxonomies: Taxonomies,
    pub extra: Extras,
}

/// Title, description, date, authors, tags, extra author, extra summary.
pub type HeaderView = (Seq<char>, Seq<char>, Seq<char>, Seq<Seq<char>>, Seq<Seq<char>>, Seq<char>, Seq<char>);

pub open spec fn texts(v: Seq<String>) -> Seq<Seq<char>> {
    v.map_values(|s: String| s@)
}

impl View for PostHeader {
    type V = HeaderView;

    open spec fn view(&self) -> HeaderView {
        (
            self.title@,
            self.description@,
            self.date@,
            texts(self.authors@),
            texts(self.taxonomies.tags@),
            self.extra.author@,
            self.extra.summary@,
        )
    }
}

/// "<first name> <last name>".
pub open spec fn display_name(u: User) -> Seq<char> {
    u.first_name@ + seq![' '] + u.last_name@
}

/// The tag strings of a tag list, in order, repeats kept.
pub open spec fn tag_names(tags: Seq<Tag>) -> Seq<Seq<char>> {
    tags.map_values(|t: Tag| t.tag@)
}

/// The front matter of a post.
pub open spec fn header_of(p: Post) -> HeaderView {
    (
        p.title@,
        p.summary@,
        rfc3339_utc(p.published_date@.0, p.published_date@.1),
        seq![display_name(p.author.user)],
        tag_names(p.tags@),
        display_name(p.author.user),
        p.summary@,
    )
}

fn author_name(u: &User) -> (r: String)
    ensures
        r@ == display_name(*u),
{
    let mut name = u.first_name.clone();
    name.append(" ");
    name.append(u.last_name.as_str());
    proof {
        reveal_strlit(" ");
    }
    name
}

/// The front matter of `post`: its title, its summary as description and as
/// extra summary, its date as RFC 3339 text, its author's name as the one
/// author and as extra author, and its tag strings in order.
pub fn to_header(post: &Post) -> (r: PostHeader)
    ensures
        r@ == header_of(*post),
{
    let mut tags: Vec<String> = Vec::new();
    let n = post.tags.len();
    let mut i: usize = 0;
    while i < n
        invariant
            n == post.tags.len(),
            i <= n,
            texts(tags@) =~= tag_names(post.tags@.take(i as int)),
        decreases n - i,
    {
        let ghost before = tags@;
        tags.push(post.tags[i].tag.clone());
        proof {
            assert(texts(tags@) =~= texts(before).push(post.tags@[i as int].tag@));
            assert(tag_names(post.tags@.take(i + 1)) =~= tag_names(post.tags@.take(i as int)).push(
                post.tags@[i as int].tag@,
            ));
            assert(post.tags@.take(i + 1) =~= post.tags@.take(i as int).push(post.tags@[i as int]));
        }
        i = i + 1;
    }
    proof {
        assert(post.tags@.take(n as int) =~= post.tags@);
    }
    let name = author_name(&post.author.user);
    let authors = vec![name.clone()];
    let r = PostHeader {
        title: post.title.clone(),
        description: post.summary.clone(),
        date: post.published_date.to_rfc3339(),
        authors,
        taxonomies: Taxonomies { tags },
        extra: Extras { author: name, summary: post.summary.clone() },
    };
    proof {
        assert(texts(r.authors@) =~= seq![display_name(post.author.user)]);
    }
    r
}

/// The front matter depends on nothing but the title, summary, author's name,
/// tag strings and date: posts that agree on these get the same front matter.
pub proof fn to_header_deterministic(a: Post, b: Post)
    requires
        a.title@ == b.title@,
        a.summary@ == b.summary@,
        display_name(a.author.user) == display_name(b.author.user),
        tag_names(a.tags@) == tag_names(b.tags@),
        a.published_date@ == b.published_date@,
    ensures
        header_of(a) == header_of(b),
{
}

} // verus!
