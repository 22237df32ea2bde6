use rust_study::advanced::{add_one, do_twice, Animal, Dog, Wrapper};
use rust_study::closure::{test2, unwrap_or_else};
use rust_study::data_struct::{BinaryTreeNode, Stack};
use rust_study::error::{parse, parse_number, AppError, IO_ERROR, NUMBER_PARSE_ERROR};
use rust_study::genericity::{longer, IdBand, Message, Point};
use rust_study::hello_macro::{HelloMacro, Pancakes};
use rust_study::option_result::{add_last_numbers, last_char_of_first_line};
use rust_study::pin::InlineBuf;
use rust_study::smart_pointer::{modify, MyBox};
use rust_study::struct_trait::{
    post_at, return_summary1, return_summary2, tweet_at, NewsArticle, Post, Rectangle, Summary,
};
use rust_study::types::{array_sum, test_const_fn};

#[test]
fn s_pin_test1() {
    let mut t1 = InlineBuf::new();
    assert!(t1.get_content().is_empty());
    {
        let mut t2 = InlineBuf::new();
        t2.set_content(b"hello");
        t1 = t2;
        let c = t1.get_content();
        assert_eq!(c.len(), 32);
        assert_eq!(&c[..5], b"hello");
        assert!(c[5..].iter().all(|b| *b == 0));
        t2 = InlineBuf::new();
        t2.set_content(b"world");
        assert_eq!(&t2.get_content()[..5], b"world");
    }
    assert_eq!(&t1.get_content()[..5], b"hello");
}

#[test]
fn inline_buf_refuses_too_long_content() {
    let mut b = InlineBuf::new();
    b.set_content(&[7u8; 33]);
    assert!(b.get_content().is_empty());
    b.set_content(&[7u8; 32]);
    assert_eq!(b.get_content(), vec![7u8; 32]);
    b.set_content(b"ab");
    let c = b.get_content();
    assert_eq!(&c[..3], &[b'a', b'b', 7]);
}

#[test]
fn stack_is_last_in_first_out() {
    let mut s = Stack::new();
    assert!(s.is_empty());
    assert_eq!(s.peek(), None);
    s.push(1);
    s.push(2);
    assert_eq!(s.peek(), Some(&2));
    assert_eq!(s.pop(), Some(2));
    assert_eq!(s.pop(), Some(1));
    assert_eq!(s.pop(), None);
    assert!(s.is_empty());
}

#[test]
fn binary_tree_node_links() {
    let mut root = BinaryTreeNode::new(1);
    assert!(root.left.is_none() && root.right.is_none());
    root.set_left(BinaryTreeNode::from(Some(Box::new(BinaryTreeNode::new(4))), None, 2));
    root.set_right(BinaryTreeNode::new(3));
    assert_eq!(root.left.as_ref().unwrap().val, 2);
    assert_eq!(root.left.as_ref().unwrap().left.as_ref().unwrap().val, 4);
    assert_eq!(root.right.as_ref().unwrap().val, 3);
    root.set_left_none();
    assert!(root.left.is_none());
    assert_eq!(root.right.as_ref().unwrap().val, 3);
    root.set_right_none();
    assert!(root.right.is_none());
    assert_eq!(root.val, 1);
}

#[test]
fn rectangle_from_text() {
    let r = Rectangle::new("10,11");
    assert_eq!((r.width, r.height), (10, 11));
    let r = Rectangle::new(" 3 , x");
    assert_eq!((r.width, r.height), (3, 0));
    let r = Rectangle::new("1,2,3");
    assert_eq!((r.width, r.height), (0, 0));
    let r = Rectangle::new("");
    assert_eq!((r.width, r.height), (0, 0));
    let r = Rectangle::new("12");
    assert_eq!((r.width, r.height), (0, 0));
    assert!(Rectangle::new("10,11").can_hold(&Rectangle { width: 9, height: 10 }));
    assert!(!Rectangle::new("10,11").can_hold(&Rectangle { width: 10, height: 1 }));
    assert_eq!(Rectangle { width: 65536, height: 65536 }.area(), 4294967296);
}

#[test]
fn summaries() {
    let t = tweet_at(7);
    assert_eq!(t.summarize_author(), "@libai");
    assert_eq!(t.summarize(), "read more...");
    assert_eq!(t.time, 7);
    let n = NewsArticle {
        headline: "h".to_string(),
        author: "wang wu".to_string(),
        content: String::new(),
        time: 0,
    };
    assert_eq!(n.summarize_author(), "/by wang wu");
    assert!(matches!(post_at(true, 3), Post::Tweet(ref t) if t.time == 3));
    match post_at(false, 4) {
        Post::News(n) => assert_eq!((n.headline.as_str(), n.author.as_str(), n.time), ("break news", "wang wu", 4)),
        Post::Tweet(_) => panic!("expected news"),
    }
    assert_eq!(return_summary1().author, "libai");
    assert_eq!(return_summary2(true).summarize_author(), "@libai");
    assert_eq!(return_summary2(false).summarize_author(), "/by wang wu");
    assert!(return_summary1().time > 0);
}

#[test]
fn functions_as_values() {
    assert_eq!(add_one(5), 6);
    assert_eq!(do_twice(add_one, 5), 12);
    assert_eq!(unwrap_or_else(Some(vec![1, 2, 3]), Vec::new), vec![1, 2, 3]);
    assert_eq!(unwrap_or_else(None, Vec::<i32>::new), Vec::<i32>::new());
    assert_eq!(test2(|p| p * 2, 21), 42);
    assert_eq!(Dog::baby_name(), "Spot");
    assert_eq!(<Dog as Animal>::baby_name(), "puppy");
}

#[test]
fn wrapper_prints_as_list() {
    let w = Wrapper(vec![String::from("hello"), String::from("world")]);
    assert_eq!(w.to_string(), "[hello, world]");
    assert_eq!(Wrapper(vec![]).to_string(), "[]");
    assert_eq!(Wrapper(vec!["a".to_string()]).to_string(), "[a]");
}

#[test]
fn option_early_returns() {
    let mut stack = vec![1, 2, 3];
    assert_eq!(add_last_numbers(&mut stack), Some(5));
    assert_eq!(stack, vec![1]);
    assert_eq!(add_last_numbers(&mut stack), None);
    assert!(stack.is_empty());
    assert_eq!(add_last_numbers(&mut stack), None);
    assert_eq!(last_char_of_first_line("Hello, world\nHow are you"), Some('d'));
    assert_eq!(last_char_of_first_line("hi\r\nthere"), Some('i'));
    assert_eq!(last_char_of_first_line("hi\r"), Some('\r'));
    assert_eq!(last_char_of_first_line("\nHi"), None);
    assert_eq!(last_char_of_first_line(""), None);
    assert_eq!(last_char_of_first_line("\r\nx"), None);
}

#[test]
fn points_messages_and_text() {
    let p = Point::new(10, 20);
    assert_eq!((*p.get_x(), *p.get_y()), (10, 20));
    assert_eq!(Message::Hello { id: 10 }.id_band(), IdBand::Low(10));
    assert_eq!(Message::Hello { id: 12 }.id_band(), IdBand::Middle);
    assert_eq!(Message::Hello { id: 2 }.id_band(), IdBand::Other(2));
    assert_eq!(longer("abc", "de"), "abc");
    assert_eq!(longer("ab", "de"), "de");
    assert_eq!(longer("é", "ab"), "ab");
    assert_eq!(longer("é", "a"), "é");
    assert_eq!(Pancakes::hello_macro(), "Hello, Macro! My name is Pancakes!");
}

#[test]
fn boxes_sums_and_errors() {
    let b = MyBox::new(5);
    assert_eq!(*b.get(), 5);
    let mut x: i32 = 5;
    modify(&mut x);
    assert_eq!(x, 6);
    assert_eq!(array_sum(&[1, 2, 3, 4]), 10);
    assert_eq!(array_sum::<0>(&[]), 0);
    assert_eq!(test_const_fn(), "编译时就可以计算的fn才可以是const");
    let e = parse().unwrap_err();
    assert_eq!(e.code, NUMBER_PARSE_ERROR);
    assert_eq!(e.message, "invalid digit found in string");
    assert_eq!(parse_number("-17").unwrap(), -17);
    assert_eq!(parse_number("").unwrap_err().code, NUMBER_PARSE_ERROR);
    let io = AppError::new(IO_ERROR, "disk".to_string());
    assert_eq!((io.code, io.message.as_str()), (10000, "disk"));
}
