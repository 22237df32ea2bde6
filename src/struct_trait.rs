//! Rectangles, and short summaries of posts.
use vstd::prelude::*;
use crate::utils::{convert_to_i32, i32_or, trimmed};

verus! {

/// An axis-aligned rectangle.
#[derive(Debug, Clone, Copy, PartialEq, Eq, Structural)]
pub struct Rectangle {
    pub width: i32,
    pub height: i32,
}

/// Whether `s` holds exactly one comma, at `k`.
pub open spec fn single_comma_at(s: Seq<char>, k: int) -> bool {
    &&& 0 <= k < s.len()
    &&& s[k] == ','
    &&& forall|j: int| 0 <= j < s.len() && j != k ==> s[j] != ','
}

impl Rectangle {
    /// Reads a rectangle from `"width,height"`; each side is read as an
    /// integer with surrounding whitespace removed, and is 0 where it is none.
    /// Text without exactly one comma gives a rectangle of size 0 by 0.
    pub fn new(s: &str) -> (r: Rectangle)
        ensures
            forall|k: int|
                single_comma_at(s@, k) ==> r.width == i32_or(0, trimmed(s@.subrange(0, k)))
                    && r.height == i32_or(0, trimmed(s@.subrange(k + 1, s@.len() as int))),
            (forall|k: int| !single_comma_at(s@, k)) ==> r.width == 0 && r.height == 0,
    {
        let n = s.unicode_len();
        let mut commas: usize = 0;
        let mut first: usize = 0;
        let mut i: usize = 0;
        while i < n
            invariant
                n == s@.len(),
                i <= n,
                commas <= i,
                commas == 0 ==> forall|j: int| 0 <= j < i ==> s@[j] != ',',
                commas >= 1 ==> first < i && s@[first as int] == ',',
                commas == 1 ==> forall|j: int| 0 <= j < i && j != first ==> s@[j] != ',',
                commas >= 2 ==> exists|j: int| 0 <= j < i && j != first && s@[j] == ',',
            decreases n - i,
        {
            if s.get_char(i) == ',' {
                if commas == 0 {
                    first = i;
                }
                commas = commas + 1;
            }
            i = i + 1;
        }
        let mut width: i32 = 0;
        let mut height: i32 = 0;
        if commas == 1 {
            width = convert_to_i32(0, s.substring_char(0, first));
            height = convert_to_i32(0, s.substring_char(first + 1, n));
            assert forall|k: int| single_comma_at(s@, k) implies k == first by {}
            assert(single_comma_at(s@, first as int));
        } else {
            assert forall|k: int| !single_comma_at(s@, k) by {
                if single_comma_at(s@, k) {
                    if commas >= 2 {
                        let j = choose|j: int| 0 <= j < n && j != first && s@[j] == ',';
                        assert(j == k);
                        assert(first as int == k);
                    }
                }
            }
        }
        Rectangle { width, height }
    }

    /// Whether `other` fits strictly inside this rectangle.
    pub fn can_hold(&self, other: &Rectangle) -> (r: bool)
        ensures
            r == (self.width > other.width && self.height > other.height),
    {
        self.width > other.width && self.height > other.height
    }

    /// The area, width times height.
    pub fn area(&self) -> (r: i64)
        ensures
            r == self.width * self.height,
    {
        assert(-0x8000_0000 * 0x8000_0000 <= self.width * self.height <= 0x8000_0000
            * 0x8000_0000) by (nonlinear_arith)
            requires
                -0x8000_0000 <= self.width <= 0x7fff_ffff,
                -0x8000_0000 <= self.height <= 0x7fff_ffff,
        ;
        (self.width as i64) * (self.height as i64)
    }
}

/// Something that can be summed up in a line.
pub trait Summary {
    /// The line that names the author.
    spec fn author_line(&self) -> Seq<char>;

    /// The line that names the author.
    fn summarize_author(&self) -> (r: String)
        ensures
            r@ == self.author_line(),
    ;

    /// A teaser line; the same for every kind of post unless it says otherwise.
    fn summarize(&self) -> (r: String)
        ensures
            r@ == "read more..."@,
    {
        String::from_str("read more...")
    }
}

/// A short post.
pub struct Tweet {
    pub author: String,
    pub content: String,
    pub time: u64,
}

impl Summary for Tweet {
    open spec fn author_line(&self) -> Seq<char> {
        "@"@ + self.author@
    }

    fn summarize_author(&self) -> (r: String) {
        String::from_str("@").concat(self.author.as_str())
    }
}

/// A news article.
pub struct NewsArticle {
    pub headline: String,
    pub author: String,
    pub content: String,
    pub time: u64,
}

impl Summary for NewsArticle {
    open spec fn author_line(&self) -> Seq<char> {
        "/by "@ + self.author@
    }

    fn summarize_author(&self) -> (r: String) {
        String::from_str("/by ").concat(self.author.as_str())
    }
}

/// A post of one of the two kinds.
pub enum Post {
    Tweet(Tweet),
    News(NewsArticle),
}

impl Summary for Post {
    open spec fn author_line(&self) -> Seq<char> {
        match self {
            Post::Tweet(t) => t.author_line(),
            Post::News(n) => n.author_line(),
        }
    }

    fn summarize_author(&self) -> (r: String) {
        match self {
            Post::Tweet(t) => t.summarize_author(),
            Post::News(n) => n.summarize_author(),
        }
    }
}

/// Relies on `SystemTime::now` and `SystemTime::duration_since`: the whole
/// seconds since the Unix epoch, or `None` where the clock stands before it.
#[verifier::external_body]
fn unix_time_secs() -> (r: Option<u64>) {
    match std::time::SystemTime::now().duration_since(std::time::UNIX_EPOCH) {
        Ok(d) => Some(d.as_secs()),
        Err(_) => None,
    }
}

/// A tweet by libai, stamped with `time`.
pub fn tweet_at(time: u64) -> (r: Tweet)
    ensures
        r.author@ == "libai"@,
        r.content@ == "123"@,
        r.time == time,
{
    Tweet { author: String::from_str("libai"), content: String::from_str("123"), time }
}

/// A news article by wang wu, stamped with `time`.
pub fn news_at(time: u64) -> (r: NewsArticle)
    ensures
        r.headline@ == "break news"@,
        r.author@ == "wang wu"@,
        r.content@ == "123"@,
        r.time == time,
{
    NewsArticle {
        headline: String::from_str("break news"),
        author: String::from_str("wang wu"),
        content: String::from_str("123"),
        time,
    }
}

/// A tweet by libai, stamped with the current time (0 where the clock stands
/// before the Unix epoch).
pub fn return_summary1() -> (r: Tweet)
    ensures
        r.author@ == "libai"@,
        r.content@ == "123"@,
{
    let time = match unix_time_secs() {
        Some(t) => t,
        None => 0,
    };
    tweet_at(time)
}

/// The post that `switch` chooses, stamped with `time`: a tweet by libai, or
/// else a news article by wang wu.
pub fn post_at(switch: bool, time: u64) -> (r: Post)
    ensures
        switch ==> (r matches Post::Tweet(t) && t.author@ == "libai"@ && t.content@ == "123"@
            && t.time == time),
        !switch ==> (r matches Post::News(n) && n.headline@ == "break news"@ && n.author@
            == "wang wu"@ && n.content@ == "123"@ && n.time == time),
{
    if switch {
        Post::Tweet(tweet_at(time))
    } else {
        Post::News(news_at(time))
    }
}

/// The post that `switch` chooses, stamped with the current time (0 where the
/// clock stands before the Unix epoch): a tweet by libai, or else a news
/// article by wang wu.
pub fn return_summary2(switch: bool) -> (r: Post)
    ensures
        switch ==> (r matches Post::Tweet(t) && t.author@ == "libai"@ && t.content@ == "123"@),
        !switch ==> (r matches Post::News(n) && n.headline@ == "break news"@ && n.author@
            == "wang wu"@ && n.content@ == "123"@),
{
    let time = match unix_time_secs() {
        Some(t) => t,
        None => 0,
    };
    post_at(switch, time)
}

/// A source of items, one at a time, whose item type the implementor fixes.
pub trait MyIterator {
    type Item;

    fn next(&mut self) -> Option<Self::Item>;
}

/// A source of items of type `T`, one at a time.
pub trait MyIterator2<T> {
    fn next(&mut self) -> Option<T>;
}

} // verus!
