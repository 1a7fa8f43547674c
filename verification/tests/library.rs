use jobpool::aggregator::{largest, largest2, returns_summarizable, NewsArticle, Summary, Tweet};
use jobpool::basics::{add_one, do_twice, five, nToStr, split_at_mut2, Dog};
use jobpool::game::{GuessGame, GuessOutcome};
use jobpool::generics::{longest, longest2, longest3, ImportantExcerpt, Pair, Point2};
use jobpool::ownership::{
    calculate_length, calculate_length_by_borrowing, change, dangle, first_word, gives_ownership,
    takes_and_gives_back,
};
use jobpool::pointers::{loan, CustomSmartPointer, MyBox};
use jobpool::posts::{Post, TypedPost};
use jobpool::restaurant::{
    eat_at_restaurant, eat_at_restaurant3, eat_at_restaurant4, eat_at_restaurant5, Appetizer,
    Breakfast,
};
use jobpool::screen::{Button, Draw, Screen};
use jobpool::shapes::{area, build_user, Coin, Rectangle, UsState};

#[test]
fn post_workflow_hides_content_until_published() {
    let mut post = Post::new();

    post.add_text("I ate a salad for lunch today");
    assert_eq!("", post.content());

    post.request_review();
    assert_eq!("", post.content());

    post.approve();
    assert_eq!("I ate a salad for lunch today", post.content());
}

#[test]
fn typed_post_workflow() {
    let mut typed_post = TypedPost::new();

    typed_post.add_text("I ate a salad for lunch today");

    let typed_post = typed_post.request_review();

    let typed_post = typed_post.approve();

    assert_eq!("I ate a salad for lunch today", typed_post.content());
}

#[test]
fn draft_cannot_be_approved_in_place() {
    let mut post = Post::new();
    post.add_text("draft text");
    post.approve();
    assert_eq!("", post.content());
}

#[test]
fn longest_picks_the_longer_string() {
    assert_eq!("abcd", longest("abcd", "xyz"));
    assert_eq!("long string is long", longest("xyz", "long string is long"));
    assert_eq!("first", longest2("first", "second"));
    assert_eq!("really long string", longest3("a", "b"));
}

#[test]
fn largest_of_numbers_and_chars() {
    let number_list = vec![34, 50, 25, 100, 65];
    assert_eq!(&100, largest(&number_list));

    let char_list = vec!['y', 'm', 'a', 'q'];
    assert_eq!('y', largest2(&char_list));
}

#[test]
fn summaries() {
    let tweet = Tweet {
        username: String::from("horse_ebooks"),
        content: String::from("of course, as you probably already know, people"),
        reply: false,
        retweet: false,
    };
    assert_eq!("@horse_ebooks", tweet.summarize_author());
    assert_eq!(
        "horse_ebooks: of course, as you probably already know, people",
        tweet.summarize()
    );

    let article = NewsArticle {
        headline: String::from("Penguins win the Stanley Cup Championship!"),
        location: String::from("Pittsburgh, PA, USA"),
        author: String::from("Iceburgh"),
        content: String::from("The Pittsburgh Penguins once again are the best team."),
    };
    assert_eq!("@Iceburgh", article.summarize_author());
    assert_eq!("(Read more from @Iceburgh...)", article.summarize());

    let summarizable = returns_summarizable();
    assert_eq!(
        "horse_ebooks: of course, as you probably already know, people",
        summarizable.summarize()
    );
}

#[test]
fn ownership_round_trips() {
    assert_eq!("hello", dangle());
    assert_eq!("hello", gives_ownership());
    assert_eq!("borrowed", takes_and_gives_back(String::from("borrowed")));

    let mut s = String::from("Hello");
    change(&mut s);
    assert_eq!("Hello, world", s);

    assert_eq!(5, calculate_length_by_borrowing(&String::from("hello")));
    let (s, len) = calculate_length(String::from("hello"));
    assert_eq!("hello", s);
    assert_eq!(5, len);
}

#[test]
fn first_word_stops_at_the_first_space() {
    assert_eq!("hello", first_word("hello world"));
    assert_eq!("hello", first_word("hello"));
    assert_eq!("", first_word(" leading"));
}

#[test]
fn rectangle_area_and_square() {
    let rect = Rectangle { width: 30, height: 50 };
    assert_eq!(1500, area(&rect));
    assert_eq!(1500, rect.calculateArea());
    let sq = Rectangle::square(12);
    assert_eq!(12, sq.width);
    assert_eq!(12, sq.height);
}

#[test]
fn users_and_coins() {
    let user = build_user(String::from("sk@example.com"), String::from("sk"));
    assert_eq!("sk@example.com", user.email);
    assert_eq!("sk", user.username);
    assert!(user.active);
    assert_eq!(1, user.sign_in_count);

    assert_eq!(5, Coin::Nickel.value_in_cents());
    assert_eq!(1, Coin::Penny.value_in_cents());
    assert_eq!(10, Coin::Dime.value_in_cents());
    assert_eq!(25, Coin::Quarter(UsState::California).value_in_cents());
}

#[test]
fn basics_compute_exactly() {
    assert_eq!(5, five());
    assert_eq!(91, nToStr(90));
    assert_eq!(6, add_one(5));
    assert_eq!(12, do_twice(add_one, 5));
    assert_eq!("Spot", Dog::baby_name());
}

#[test]
fn split_at_mut_splits_in_two() {
    let mut v = vec![1, 2, 3, 4, 5, 6];

    let r = &mut v[..];

    let (a, b) = split_at_mut2(r, 3);

    assert_eq!(a, &mut [1, 2, 3]);
    assert_eq!(b, &mut [4, 5, 6]);
}

#[test]
fn guessing_game_judges_every_guess() {
    let game = GuessGame::new(1, 101);
    assert_eq!(GuessOutcome::TooSmall, game.judge(0));
    assert_eq!(GuessOutcome::TooBig, game.judge(101));
    let mut won = false;
    for guess in 1..101u32 {
        if game.judge(guess) == GuessOutcome::Win {
            won = true;
            assert_eq!(GuessOutcome::TooSmall, game.judge(guess - 1));
            assert_eq!(GuessOutcome::TooBig, game.judge(guess + 1));
        }
    }
    assert!(won);
}

struct SelectBox {
    options: Vec<String>,
}

impl Draw for SelectBox {
    fn draw(&self) -> String {
        format!("select box with {} options", self.options.len())
    }
}

#[test]
fn screen_renders_components_in_order() {
    let screen = Screen {
        components: vec![
            Button { width: 50, height: 10, label: String::from("OK") },
            Button { width: 75, height: 10, label: String::from("Cancel") },
        ],
    };
    assert_eq!(vec!["button: OK", "button: Cancel"], screen.run());

    let screen = Screen {
        components: vec![SelectBox {
            options: vec![String::from("Yes"), String::from("Maybe"), String::from("No")],
        }],
    };
    assert_eq!(vec!["select box with 3 options"], screen.run());
}

#[test]
fn restaurant_orders() {
    eat_at_restaurant();
    eat_at_restaurant4();
    eat_at_restaurant5();
    let (first, second) = eat_at_restaurant3();
    assert_eq!(Appetizer::Soup, first);
    assert_eq!(Appetizer::Salad, second);
    let meal = Breakfast::summer("Rye");
    assert_eq!("Rye", meal.toast);
}

#[test]
fn boxes_and_loans() {
    let b = MyBox::new(5);
    assert_eq!(5, b.0);
    loan(CustomSmartPointer { data: String::from("my stuff") });
    let p = Pair::new(1, 2);
    assert_eq!((1, 2), (p.x, p.y));
    let p3 = Point2 { x: 5, y: 10.4 }.mixup(Point2 { x: "Hello", y: 'c' });
    assert_eq!(5, p3.x);
    assert_eq!('c', p3.y);
    let novel = String::from("Call me Ishmael. Some years ago...");
    let excerpt = ImportantExcerpt { part: novel.split('.').next().unwrap() };
    assert_eq!(3, excerpt.level());
    assert_eq!("Call me Ishmael", excerpt.part);
}
