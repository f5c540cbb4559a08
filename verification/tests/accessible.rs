use text_adventurers::accessible::{AccessPath, AccessPathView, Accessible};
use text_adventurers::character::Character;
use text_adventurers::stat::StatBlock;
use text_adventurers::template::{Template, Token};
use text_adventurers::world::World;

struct TestContainer {
    a: String,
    b: String,
    child: TestSubcontainer,
}

impl Accessible for TestContainer {
    fn lookup_local(&self, property: &str) -> Option<String> {
        match property {
            "a" => Some(self.a.clone()),
            "b" => Some(self.b.clone()),
            _ => None,
        }
    }

    fn lookup_child(&self, child: &str, path: AccessPathView) -> Option<String> {
        match child {
            "child" => self.child.lookup(path),
            _ => None,
        }
    }
}

struct TestSubcontainer {
    c: String,
}

impl Accessible for TestSubcontainer {
    fn lookup_local(&self, property: &str) -> Option<String> {
        match property {
            "c" => Some(self.c.clone()),
            _ => None,
        }
    }
}

fn container() -> TestContainer {
    TestContainer {
        a: String::from("foo"),
        b: String::from("bar"),
        child: TestSubcontainer {
            c: String::from("baz"),
        },
    }
}

#[test]
fn looks_up_properties() {
    let container = container();
    assert_eq!(container.lookup_local("a"), Some(String::from("foo")));
    assert_eq!(
        container.lookup(AccessPath::from(String::from("a")).view()),
        Some(String::from("foo"))
    );
    assert_eq!(
        container.lookup(AccessPath::from(String::from("b")).view()),
        Some(String::from("bar"))
    );
    assert_eq!(
        container.lookup(AccessPath::from(String::from("child.c")).view()),
        Some(String::from("baz"))
    );
    assert_eq!(
        container.lookup(AccessPath::from(String::from("")).view()),
        None
    );
    assert_eq!(
        container.lookup(AccessPath::from(String::from("c")).view()),
        None
    );
    assert_eq!(
        container.lookup(AccessPath::from(String::from("d")).view()),
        None
    );
    assert_eq!(
        container.lookup(AccessPath::from(String::from("child.c.foo")).view()),
        None
    );
}

#[test]
fn is_accessible() {
    let world = World::empty();
    assert_eq!(
        world.lookup(AccessPath::from(String::from("player.name")).view()),
        Some(String::from("Player"))
    );
}

#[test]
fn renders_text() {
    let template = Template {
        tokens: vec![
            Token::Text(String::from("Foo\n")),
            Token::Text(String::from("Bar Baz.")),
        ],
    };
    let container = container();
    assert_eq!(template.render(&container), "Foo\nBar Baz.");
}

#[test]
fn renders_raw_text() {
    let template = Template::raw_from_str("Foo Bar");
    let container = container();
    assert_eq!(template.render(&container), "Foo Bar");
}

#[test]
fn renders_accessed_value() {
    let template = Template {
        tokens: vec![
            Token::Text(String::from("Value: (")),
            Token::Accessor(AccessPath::from(String::from("a"))),
            Token::Text(String::from(")")),
        ],
    };
    let container = container();
    assert_eq!(template.render(&container), "Value: (foo)");
}

#[test]
fn a_place_without_a_value_renders_as_nothing() {
    let template = Template {
        tokens: vec![
            Token::Text(String::from("[")),
            Token::Accessor(AccessPath::from(String::from("missing"))),
            Token::Accessor(AccessPath::from(String::from("child.c"))),
            Token::Text(String::from("]")),
        ],
    };
    assert_eq!(template.render(&container()), "[baz]");
    let found = vec![None, Some(String::from("x")), None, None];
    assert_eq!(template.fill(&found), "[x]");
}

#[test]
fn paths_are_cut_at_every_dot() {
    let segments = |text: &str| {
        let path = AccessPath::from(String::from(text));
        let mut view = path.view();
        let mut segments = Vec::new();
        while view.len() > 0 {
            segments.push(String::from(view.first()));
            view = view.rest();
        }
        segments
    };
    assert_eq!(segments("player.name"), vec!["player", "name"]);
    assert_eq!(segments(""), vec![""]);
    assert_eq!(segments("."), vec!["", ""]);
    assert_eq!(segments("a..b."), vec!["a", "", "b", ""]);
    assert_eq!(segments("één.twee"), vec!["één", "twee"]);
}

#[test]
fn a_character_exposes_its_name() {
    let character = Character::new(String::from("Mira"), StatBlock::new());
    assert_eq!(character.lookup_local("name"), Some(String::from("Mira")));
    assert_eq!(character.lookup_local("nam"), None);
    assert_eq!(
        character.lookup(AccessPath::from(String::from("name")).view()),
        Some(String::from("Mira"))
    );
    assert_eq!(
        character.lookup(AccessPath::from(String::from("name.first")).view()),
        None
    );
    let world = World::empty();
    assert_eq!(world.lookup_local("player"), None);
    assert_eq!(
        world.lookup(AccessPath::from(String::from("npc.name")).view()),
        None
    );
}
