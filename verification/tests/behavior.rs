use extrema::maximum::{largest, largest_char, largest_i32, EmptyInputError};
use extrema::points::{MultiTypePoint, Point};
use extrema::spans::longest;
use extrema::summaries::{NewsArticle, Summarizable, Tweet};

#[test]
fn largest_i32_picks_the_maximum() {
    let v = vec![1, 4, 41, 100, 25];
    assert_eq!(largest_i32(&v), Ok(100));
}

#[test]
fn largest_i32_matches_a_manual_scan() {
    let v = vec![7, -3, 12, 12, 0, -44, 9];
    let mut by_hand = v[0];
    for &n in &v {
        if n > by_hand {
            by_hand = n;
        }
    }
    assert_eq!(largest_i32(&v), Ok(by_hand));
}

#[test]
fn largest_i32_returns_a_member() {
    let v = vec![-5, -2, -9, -2, -7];
    let m = largest_i32(&v).unwrap();
    assert!(v.contains(&m));
}

#[test]
fn largest_i32_singleton_is_that_element() {
    assert_eq!(largest_i32(&[42]), Ok(42));
    assert_eq!(largest_i32(&[-17]), Ok(-17));
}

#[test]
fn largest_i32_empty_input_is_an_error() {
    assert_eq!(largest_i32(&[]), Err(EmptyInputError));
}

#[test]
fn largest_i32_all_equal_elements() {
    assert_eq!(largest_i32(&[3, 3, 3]), Ok(3));
}

#[test]
fn largest_char_picks_the_maximum() {
    let v = vec!['y', 'm', 'a', 'q'];
    assert_eq!(largest_char(&v), Ok('y'));
}

#[test]
fn largest_char_empty_input_is_an_error() {
    assert_eq!(largest_char(&[]), Err(EmptyInputError));
}

#[test]
fn largest_generic_agrees_on_numbers() {
    let v = vec![1, 4, 41, 100, 25];
    assert_eq!(largest(&v), Ok(100));
}

#[test]
fn largest_generic_agrees_on_chars() {
    let v = vec!['y', 'm', 'a', 'q'];
    assert_eq!(largest(&v), Ok('y'));
}

#[test]
fn largest_generic_singleton_is_that_element() {
    assert_eq!(largest(&[9u64]), Ok(9u64));
}

#[test]
fn largest_generic_empty_input_is_an_error() {
    let none: [u8; 0] = [];
    assert_eq!(largest(&none), Err(EmptyInputError));
}

/// A value ordered by its key alone, so that two distinct values can
/// compare as equal and the scan's tie-break becomes observable.
#[derive(Clone, Copy, Debug, PartialEq)]
struct Keyed {
    key: i32,
    tag: i32,
}

impl PartialOrd for Keyed {
    fn partial_cmp(&self, other: &Self) -> Option<std::cmp::Ordering> {
        self.key.partial_cmp(&other.key)
    }
}

#[test]
fn largest_generic_keeps_the_earliest_of_equal_maxima() {
    let v = vec![
        Keyed { key: 1, tag: 0 },
        Keyed { key: 2, tag: 1 },
        Keyed { key: 2, tag: 2 },
        Keyed { key: 0, tag: 3 },
    ];
    assert_eq!(largest(&v), Ok(Keyed { key: 2, tag: 1 }));
}

#[test]
fn longest_picks_the_longer_span() {
    assert_eq!(longest("string1", "longer str2"), "longer str2");
}

#[test]
fn longest_tie_favors_the_first_argument() {
    assert_eq!(longest("ab", "cd"), "ab");
}

#[test]
fn longest_first_argument_can_win_outright() {
    assert_eq!(longest("a much longer text", "short"), "a much longer text");
}

#[test]
fn tweet_summary_uses_the_default_line() {
    let tweet = Tweet {
        username: String::from("SomeGuyOnTheInternet"),
        content: String::from("some ridiculous opinion"),
        reply: false,
        retweet: true,
    };
    assert_eq!(tweet.author_summary(), "@SomeGuyOnTheInternet");
    assert_eq!(tweet.summary(), "read more from: @SomeGuyOnTheInternet");
}

#[test]
fn article_summary_overrides_the_default_line() {
    let article = NewsArticle {
        headline: String::from("Penguins Win the Stanley Cup Championship!"),
        location: String::from("Pittsburgh, PA, USA"),
        author: String::from("Iceburgh"),
        content: String::from("The Pittsburgh Penguins once again are the best team."),
    };
    assert_eq!(article.author_summary(), "written by Iceburgh");
    assert_eq!(
        article.summary(),
        "Penguins Win the Stanley Cup Championship!, by Iceburgh (Pittsburgh, PA, USA)"
    );
}

fn summarize_any<T: Summarizable>(item: &T) -> String {
    item.summary()
}

#[test]
fn summary_dispatch_resolves_to_the_most_specific_implementation() {
    let tweet = Tweet {
        username: String::from("horse_ebooks"),
        content: String::from("of course"),
        reply: false,
        retweet: false,
    };
    let article = NewsArticle {
        headline: String::from("Rain Expected"),
        location: String::from("Bergen"),
        author: String::from("A. Meteorologist"),
        content: String::from("It will rain."),
    };
    assert_eq!(summarize_any(&tweet), "read more from: @horse_ebooks");
    assert_eq!(summarize_any(&article), "Rain Expected, by A. Meteorologist (Bergen)");
}

#[test]
fn point_exposes_its_first_coordinate() {
    let p = Point { x: 4, y: 5 };
    assert_eq!(*p.x(), 4);
}

#[test]
fn mixup_combines_coordinates_of_two_points() {
    let both_integer = MultiTypePoint { x: 5, y: 10 };
    let both_text = MultiTypePoint { x: "left", y: "right" };
    let mixed = both_integer.mixup(both_text);
    assert_eq!(mixed.x, 5);
    assert_eq!(mixed.y, "right");
}
