use rust_tour::aggregator::{
    notify, notify_multiple_trait_bounds, notify_multiple_trait_bounds2, notify_trait_bound,
    read_more_from, returns_summarizable, some_function, NewsArticle, Summary, Tweet,
};
use std::fmt;

fn tweet() -> Tweet {
    Tweet {
        username: String::from("horse_ebooks"),
        content: String::from("of course, as you probably already know, people"),
        reply: false,
        retweet: false,
    }
}

fn article() -> NewsArticle {
    NewsArticle {
        headline: String::from("Penguins win the Stanley Cup Championship!"),
        location: String::from("Pittsburgh, PA, USA"),
        author: String::from("Iceburgh"),
        content: String::from("The Pittsburgh Penguins once again are the best."),
    }
}

struct Note {
    by: String,
}

impl Summary for Note {
    fn summarize_author(&self) -> String {
        self.by.clone()
    }
}

impl fmt::Display for Note {
    fn fmt(&self, f: &mut fmt::Formatter) -> fmt::Result {
        f.write_str(&self.by)
    }
}

#[test]
fn a_tweet_is_summed_up_by_its_author_and_content() {
    assert_eq!(
        tweet().summarize(),
        "horse_ebooks: of course, as you probably already know, people"
    );
    assert_eq!(tweet().summarize_author(), "@horse_ebooks");
}

#[test]
fn an_article_is_summed_up_by_headline_author_and_place() {
    assert_eq!(
        article().summarize(),
        "Penguins win the Stanley Cup Championship!, by Iceburgh (Pittsburgh, PA, USA)"
    );
    assert_eq!(article().summarize_author(), "Iceburgh");
}

#[test]
fn an_item_without_a_summary_of_its_own_points_to_its_author() {
    let note = Note {
        by: String::from("someone"),
    };
    assert_eq!(note.summarize(), "(Read more from someone...)");
    assert_eq!(read_more_from("@x"), "(Read more from @x...)");
    assert_eq!(notify(&note), "Breaking news! (Read more from someone...)");
}

#[test]
fn an_announcement_is_the_summary_as_breaking_news() {
    assert_eq!(
        notify(&tweet()),
        "Breaking news! horse_ebooks: of course, as you probably already know, people"
    );
    assert_eq!(notify_trait_bound(&tweet()), notify(&tweet()));
    assert_eq!(
        notify_trait_bound(&article()),
        "Breaking news! Penguins win the Stanley Cup Championship!, by Iceburgh (Pittsburgh, PA, USA)"
    );
}

#[test]
fn the_item_handed_out_is_the_tweet() {
    let item = returns_summarizable();
    assert_eq!(
        item.summarize(),
        "horse_ebooks: of course, as you probably already know, people"
    );
    assert_eq!(item.summarize_author(), "@horse_ebooks");
}

#[test]
fn items_with_more_bounds_are_taken() {
    let note = Note {
        by: String::from("someone"),
    };
    notify_multiple_trait_bounds(&note);
    notify_multiple_trait_bounds2(&note);
    assert_eq!(some_function(&String::from("a"), &1u8), 2);
}
