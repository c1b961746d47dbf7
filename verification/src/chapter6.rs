//! Traits, generic functions and a range that is walked step by step.

use std::cmp::Ordering;
use vstd::prelude::*;
use vstd::std_specs::cmp::PartialOrdSpec;
use vstd::string::*;
use crate::text::{add_line, captioned, int_string, nat_text};

verus! {

/// What can be told in one line.
pub trait Summary {
    /// The line that tells of `self`.
    spec fn summary(&self) -> Seq<char>;

    /// Tells of `self` in one line.
    fn summarize(&self) -> (text: String)
        ensures
            text@ == self.summary(),
    ;
}

/// A piece of news.
pub struct NewsArticle {
    pub headline: String,
    pub location: String,
    pub author: String,
    pub content: String,
}

impl Summary for NewsArticle {
    /// The headline, then the author, then the place in brackets.
    open spec fn summary(&self) -> Seq<char> {
        self.headline@ + ", by "@ + self.author@ + " ("@ + self.location@ + ")"@
    }

    fn summarize(&self) -> (text: String) {
        let mut text = self.headline.clone();
        text.append(", by ");
        text.append(self.author.as_str());
        text.append(" (");
        text.append(self.location.as_str());
        text.append(")");
        text
    }
}

/// A short public message.
pub struct Tweet {
    pub username: String,
    pub content: String,
    pub reply: bool,
    pub retweet: bool,
}

impl Summary for Tweet {
    /// The sender, a colon and the message.
    open spec fn summary(&self) -> Seq<char> {
        self.username@ + ": "@ + self.content@
    }

    fn summarize(&self) -> (text: String) {
        let mut text = self.username.clone();
        text.append(": ");
        text.append(self.content.as_str());
        text
    }
}

/// Announces whatever can be summarized.
pub fn notify<T: Summary>(item: &T) -> (line: String)
    ensures
        line@ == "Breaking news! "@ + item.summary(),
{
    let mut line = String::from_str("Breaking news! ");
    line.append(item.summarize().as_str());
    line
}

/// The greater of two values: `a` where `a > b` holds, else `b`. For a type
/// whose comparison Verus knows, `a > b` holds where `a` compares as greater.
pub fn maximum<T: PartialOrd>(a: T, b: T) -> (greater: T)
    ensures
        exists|a_is_greater: bool|
            #![auto]
            call_ensures(T::gt, (&a, &b), a_is_greater) && greater == (if a_is_greater {
                a
            } else {
                b
            }),
        T::obeys_partial_cmp_spec() ==> greater == (if a.partial_cmp_spec(&b) == Some(
            Ordering::Greater,
        ) {
            a
        } else {
            b
        }),
{
    if a > b {
        a
    } else {
        b
    }
}

/// The whole numbers from `start` up to, but not including, `end`, handed out
/// one by one; `current` is the next to come.
pub struct Range {
    pub start: i32,
    pub end: i32,
    pub current: i32,
}

impl Range {
    /// The numbers that are still to come, in their order.
    pub open spec fn remaining(&self) -> Seq<i32> {
        Seq::new(
            (if self.current < self.end {
                self.end - self.current
            } else {
                0
            }) as nat,
            |i: int| (self.current + i) as i32,
        )
    }

    /// Hands out the next number and steps past it, or `None` once `end` is
    /// reached.
    pub fn next(&mut self) -> (item: Option<i32>)
        ensures
            final(self).start == old(self).start,
            final(self).end == old(self).end,
            old(self).current < old(self).end ==> item == Some(old(self).current)
                && final(self).current == old(self).current + 1,
            old(self).current >= old(self).end ==> item.is_none() && final(self).current == old(
                self,
            ).current,
            item == (if old(self).remaining().len() > 0 {
                Some(old(self).remaining()[0])
            } else {
                None
            }),
            final(self).remaining() == (if old(self).remaining().len() > 0 {
                old(self).remaining().drop_first()
            } else {
                old(self).remaining()
            }),
    {
        if self.current < self.end {
            let value = self.current;
            self.current += 1;
            Some(value)
        } else {
            None
        }
    }
}

/// What the sixth chapter shows, given the text of the greater of its two
/// floating-point numbers.
pub open spec fn chapter6_lines(max_float_text: Seq<char>) -> Seq<Seq<char>> {
    seq![
        "New article available! Penguins win the Stanley Cup!, by Abe Knightly (Pittsburgh, PA)"@,
        "1 new tweet: horse_ebooks: of course, as you probably already know, people"@,
        "Breaking news! Penguins win the Stanley Cup!, by Abe Knightly (Pittsburgh, PA)"@,
        "Breaking news! horse_ebooks: of course, as you probably already know, people"@,
        "The maximum of 5 and 10 is 10"@,
        "The maximum of 3.14 and 2.71 is "@ + max_float_text,
        "1"@,
        "2"@,
        "3"@,
        "4"@,
    ]
}

/// The sixth chapter: an article and a tweet are summarized and announced,
/// the greater of two integers and of two floating-point numbers is shown,
/// and a range from one to five is walked. The floating-point maximum comes
/// already rendered, as `max_float_text`.
pub fn chapter6_main(max_float_text: &str) -> (lines: Vec<String>)
    ensures
        lines.deep_view() == chapter6_lines(max_float_text@),
{
    let mut lines: Vec<String> = Vec::new();
    let article = NewsArticle {
        headline: String::from_str("Penguins win the Stanley Cup!"),
        location: String::from_str("Pittsburgh, PA"),
        author: String::from_str("Abe Knightly"),
        content: String::from_str("The Pittsburgh Penguins won the Stanley Cup last night."),
    };
    let mut available = String::from_str("New article available! ");
    available.append(article.summarize().as_str());
    lines.push(available);

    let tweet = Tweet {
        username: String::from_str("horse_ebooks"),
        content: String::from_str("of course, as you probably already know, people"),
        reply: false,
        retweet: false,
    };
    let mut new_tweet = String::from_str("1 new tweet: ");
    new_tweet.append(tweet.summarize().as_str());
    lines.push(new_tweet);

    lines.push(notify(&article));
    lines.push(notify(&tweet));

    let max_value = maximum(5i32, 10i32);
    lines.push(captioned("The maximum of 5 and 10 is ", max_value));

    let mut floats = String::from_str("The maximum of 3.14 and 2.71 is ");
    floats.append(max_float_text);
    lines.push(floats);

    proof {
        reveal_with_fuel(nat_text, 2);
        reveal_strlit("Penguins win the Stanley Cup!");
        reveal_strlit("Pittsburgh, PA");
        reveal_strlit("Abe Knightly");
        reveal_strlit("horse_ebooks");
        reveal_strlit("of course, as you probably already know, people");
        reveal_strlit(", by ");
        reveal_strlit(" (");
        reveal_strlit(")");
        reveal_strlit(": ");
        reveal_strlit("New article available! ");
        reveal_strlit("1 new tweet: ");
        reveal_strlit("Breaking news! ");
        reveal_strlit("The maximum of 5 and 10 is ");
        reveal_strlit(
            "New article available! Penguins win the Stanley Cup!, by Abe Knightly (Pittsburgh, PA)",
        );
        reveal_strlit("1 new tweet: horse_ebooks: of course, as you probably already know, people");
        reveal_strlit(
            "Breaking news! Penguins win the Stanley Cup!, by Abe Knightly (Pittsburgh, PA)",
        );
        reveal_strlit(
            "Breaking news! horse_ebooks: of course, as you probably already know, people",
        );
        reveal_strlit("The maximum of 5 and 10 is 10");
        assert(lines[0]@ =~= chapter6_lines(max_float_text@)[0]);
        assert(lines[1]@ =~= chapter6_lines(max_float_text@)[1]);
        assert(lines[2]@ =~= chapter6_lines(max_float_text@)[2]);
        assert(lines[3]@ =~= chapter6_lines(max_float_text@)[3]);
        assert(lines[4]@ =~= chapter6_lines(max_float_text@)[4]);
    }

    let mut range = Range { start: 1, end: 5, current: 1 };
    loop
        invariant
            range.end == 5,
            1 <= range.current <= 5,
            lines.deep_view() == chapter6_lines(max_float_text@).take(5 + range.current),
        ensures
            range.current == 5,
        decreases range.end - range.current,
    {
        match range.next() {
            Some(num) => {
                proof {
                    reveal_strlit("1");
                    reveal_strlit("2");
                    reveal_strlit("3");
                    reveal_strlit("4");
                }
                add_line(&mut lines, int_string(num));
                assert(lines.deep_view() =~~= chapter6_lines(max_float_text@).take(
                    5 + range.current,
                ));
            },
            None => {
                break ;
            },
        }
    }
    lines
}

} // verus!
