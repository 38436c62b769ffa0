use lifetime_variance::{
    collect_and_display, collect_and_display_2, collect_messages, collect_messages_simple,
    message_example, Message, MessageCollector, MessageDisplayer, SimpleMessageCollector,
    SimpleMessageDisplayer,
};

fn pool(items: &[&str]) -> Vec<String> {
    items.iter().map(|s| s.to_string()).collect()
}

#[test]
fn add_message_appends_to_the_list() {
    let mut list = vec![Message { message: "first" }];
    {
        let mut collector = MessageCollector { list: &mut list };
        collector.add_message(Message { message: "second" });
        collector.add_message(Message { message: "third" });
    }
    let texts: Vec<&str> = list.iter().map(|m| m.message).collect();
    assert_eq!(texts, vec!["first", "second", "third"]);
}

#[test]
fn simple_add_message_appends_to_the_list() {
    let mut list = Vec::new();
    let mut collector = SimpleMessageCollector { list: &mut list };
    collector.add_message(Message { message: "one" });
    collector.add_message(Message { message: "two" });
    assert_eq!(collector.list.len(), 2);
    assert_eq!(collector.list[0].message, "one");
    assert_eq!(collector.list[1].message, "two");
}

#[test]
fn displayer_puts_each_message_on_its_own_line() {
    let list = vec![Message { message: "ten" }, Message { message: "twenty" }];
    let displayer = MessageDisplayer { list: &list };
    assert_eq!(displayer.to_string(), "ten\ntwenty\n");
}

#[test]
fn displayer_of_no_messages_is_empty() {
    let list: Vec<Message> = Vec::new();
    assert_eq!(MessageDisplayer { list: &list }.to_string(), "");
    assert_eq!(SimpleMessageDisplayer { list: &list }.to_string(), "");
}

#[test]
fn simple_displayer_matches_displayer() {
    let owned = String::from("scoped");
    let list = vec![
        Message { message: "static" },
        Message { message: owned.as_str() },
        Message { message: "" },
    ];
    let simple = SimpleMessageDisplayer { list: &list }.to_string();
    assert_eq!(simple, "static\nscoped\n\n");
    assert_eq!(simple, MessageDisplayer { list: &list }.to_string());
}

#[test]
fn collect_messages_appends_the_pool_in_order() {
    let p = pool(&["b", "c"]);
    let mut list = vec![Message { message: "a" }];
    {
        let mut collector = MessageCollector { list: &mut list };
        collect_messages(&mut collector, &p);
    }
    let texts: Vec<&str> = list.iter().map(|m| m.message).collect();
    assert_eq!(texts, vec!["a", "b", "c"]);
}

#[test]
fn collect_messages_simple_appends_the_pool_in_order() {
    let p = pool(&["x", "y", "z"]);
    let mut list = Vec::new();
    let mut collector = SimpleMessageCollector { list: &mut list };
    collect_messages_simple(&mut collector, &p);
    let texts: Vec<&str> = collector.list.iter().map(|m| m.message).collect();
    assert_eq!(texts, vec!["x", "y", "z"]);
}

#[test]
fn collect_and_display_renders_the_pool() {
    let p = pool(&["ten", "twenty"]);
    assert_eq!(collect_and_display(&p), "ten\ntwenty\n");
}

#[test]
fn collect_and_display_of_an_empty_pool_is_empty() {
    let p: Vec<String> = Vec::new();
    assert_eq!(collect_and_display(&p), "");
    assert_eq!(collect_and_display_2(&p), "");
}

#[test]
fn collect_and_display_2_renders_the_pool() {
    let p = pool(&["alpha", "beta", "gamma"]);
    assert_eq!(collect_and_display_2(&p), "alpha\nbeta\ngamma\n");
    assert_eq!(collect_and_display_2(&p), collect_and_display(&p));
}

#[test]
fn message_example_shows_ten_and_twenty() {
    assert_eq!(message_example(), "ten\ntwenty\n");
}
