//! A story as a graph of named nodes, each a list of elements that are told
//! one step at a time.

use crate::choice::Choice;
use crate::io::Interface;
use crate::template::Template;
use crate::world::World;
use vstd::prelude::*;
use vstd::string::StringExecFns;

verus! {

/// A text that is told.
pub struct StoryText {
    pub text: Template,
}

/// One way to go on at a choice.
pub struct StoryOption {
    /// What the option is presented as.
    pub intro_text: Template,
    /// What is told when the option is taken.
    pub result_text: Option<Template>,
    /// The node at which the story goes on; without one it goes on behind
    /// the choice.
    pub next_node: Option<String>,
}

pub struct StoryChoice {
    pub options: Vec<StoryOption>,
}

pub enum StoryElement {
    Text(StoryText),
    Choice(StoryChoice),
    Exit,
}

/// An option as it is presented: its text, and its position among the
/// options of its choice.
pub struct RenderedStoryOption {
    pub rendered_intro: String,
    pub index: usize,
}

impl Choice for RenderedStoryOption {
    fn describe(&self) -> (text: String)
        ensures
            text@ == self.rendered_intro@,
    {
        self.rendered_intro.clone()
    }
}

pub struct StoryNode {
    name: String,
    elements: Vec<StoryElement>,
}

impl StoryNode {
    pub closed spec fn name_view(&self) -> Seq<char> {
        self.name@
    }

    pub closed spec fn elements_view(&self) -> Seq<StoryElement> {
        self.elements@
    }

    pub fn empty_node(name: String) -> (node: StoryNode)
        ensures
            node.name_view() == name@,
            node.elements_view().len() == 0,
    {
        StoryNode { name, elements: Vec::new() }
    }

    pub fn new(name: String, elements: Vec<StoryElement>) -> (node: StoryNode)
        ensures
            node.name_view() == name@,
            node.elements_view() == elements@,
    {
        StoryNode { name, elements }
    }

    pub fn name(&self) -> (name: &str)
        ensures
            name@ == self.name_view(),
    {
        self.name.as_str()
    }

    pub fn len(&self) -> (len: usize)
        ensures
            len == self.elements_view().len(),
    {
        self.elements.len()
    }

    pub fn element(&self, position: usize) -> (element: &StoryElement)
        requires
            position < self.elements_view().len(),
        ensures
            *element == self.elements_view()[position as int],
    {
        &self.elements[position]
    }
}

/// The first position among the first `upto` nodes that holds a node of
/// the given name.
pub open spec fn node_position(nodes: Seq<StoryNode>, name: Seq<char>, upto: int) -> Option<int>
    decreases upto,
{
    if upto <= 0 {
        None
    } else {
        match node_position(nodes, name, upto - 1) {
            Some(i) => Some(i),
            None => if nodes[upto - 1].name_view() == name {
                Some(upto - 1)
            } else {
                None
            },
        }
    }
}

/// The position of the node of a name, if the graph has one.
pub open spec fn node_of(nodes: Seq<StoryNode>, name: Seq<char>) -> Option<int> {
    node_position(nodes, name, nodes.len() as int)
}

pub struct StoryGraph {
    // One node per name, in the order in which the names came.
    nodes: Vec<StoryNode>,
}

impl StoryGraph {
    pub closed spec fn nodes(&self) -> Seq<StoryNode> {
        self.nodes@
    }

    pub fn new() -> (graph: StoryGraph)
        ensures
            graph.nodes().len() == 0,
    {
        StoryGraph { nodes: Vec::new() }
    }

    fn find(&self, key: &str) -> (found: Option<usize>)
        ensures
            match found {
                Some(i) => node_of(self.nodes(), key@) == Some(i as int) && i < self.nodes().len(),
                None => node_of(self.nodes(), key@) == None::<int>,
            },
    {
        let wanted = String::from_str(key);
        let mut i: usize = 0;
        while i < self.nodes.len()
            invariant
                i <= self.nodes@.len(),
                wanted@ == key@,
                node_position(self.nodes(), key@, i as int) == None::<int>,
            decreases self.nodes@.len() - i,
        {
            if self.nodes[i].name == wanted {
                proof {
                    lemma_node_position_stays(self.nodes(), key@, i + 1, self.nodes().len() as int);
                }
                return Some(i);
            }
            i = i + 1;
        }
        None
    }

    /// Adds a node under its name. A node that the graph already has under
    /// that name gives way to it.
    pub fn add_node(&mut self, node: StoryNode)
        ensures
            match node_of(old(self).nodes(), node.name_view()) {
                Some(i) => final(self).nodes() == old(self).nodes().update(i, node),
                None => final(self).nodes() == old(self).nodes().push(node),
            },
            node_of(final(self).nodes(), node.name_view()) is Some,
            final(self).nodes()[node_of(final(self).nodes(), node.name_view()).unwrap()] == node,
    {
        let ghost name = node.name_view();
        match self.find(node.name()) {
            Some(i) => {
                self.nodes.set(i, node);
                proof {
                    let before = old(self).nodes();
                    let after = self.nodes();
                    lemma_node_position(before, name, before.len() as int);
                    lemma_node_position(after, name, after.len() as int);
                    assert(after[i as int].name_view() == name);
                    if node_of(after, name) is Some {
                        let k = node_of(after, name).unwrap();
                        if k < i {
                            assert(after[k] == before[k]);
                            assert(before[k].name_view() != name);
                        }
                    }
                }
            },
            None => {
                self.nodes.push(node);
                proof {
                    let before = old(self).nodes();
                    let after = self.nodes();
                    lemma_node_position(before, name, before.len() as int);
                    lemma_node_position(after, name, after.len() as int);
                    assert(after[before.len() as int].name_view() == name);
                    if node_of(after, name) is Some {
                        let k = node_of(after, name).unwrap();
                        if k < before.len() {
                            assert(after[k] == before[k]);
                            assert(before[k].name_view() != name);
                        }
                    }
                }
            },
        }
    }

    /// Whether the graph has a node of that name.
    pub fn has_node(&self, key: &str) -> (has: bool)
        ensures
            has == node_of(self.nodes(), key@) is Some,
    {
        self.find(key).is_some()
    }

    /// The node of that name, which the graph has to have.
    pub fn get_node(&self, key: &str) -> (node: &StoryNode)
        requires
            node_of(self.nodes(), key@) is Some,
        ensures
            *node == self.nodes()[node_of(self.nodes(), key@).unwrap()],
            node.name_view() == key@,
    {
        proof {
            lemma_node_position(self.nodes(), key@, self.nodes().len() as int);
        }
        let i = self.find(key).unwrap();
        &self.nodes[i]
    }
}

/// Where a story goes on: at the element at `position`, told under the
/// index `index`, of the node of the name `node`, or of the node that the
/// story is in where there is no name.
pub struct StoryCursor {
    pub node: Option<String>,
    pub position: usize,
    pub index: usize,
}

/// The mathematical value of a cursor.
pub struct Place {
    pub node: Option<Seq<char>>,
    pub position: int,
    pub index: int,
}

impl View for StoryCursor {
    type V = Place;

    open spec fn view(&self) -> Place {
        Place {
            node: match self.node {
                Some(name) => Some(name@),
                None => None,
            },
            position: self.position as int,
            index: self.index as int,
        }
    }
}

/// Where the story goes on after an option was taken at a choice that was
/// told under `index`: at the start of the option's node, or else behind
/// the choice.
pub open spec fn after_option(option: StoryOption, index: int) -> Place {
    match option.next_node {
        Some(next) => Place { node: Some(next@), position: 0, index: 0 },
        None => Place { node: None, position: index + 1, index: index + 1 },
    }
}

/// Where the story goes on after a text that was told under `index`: at
/// the element behind that index, told under the same index.
pub open spec fn after_text(index: int) -> Place {
    Place { node: None, position: index + 1, index }
}

impl StoryChoice {
    /// The options as they are presented, each with its position.
    pub fn render_options(&self, world: &World) -> (rendered: Vec<RenderedStoryOption>)
        ensures
            rendered@.len() == self.options@.len(),
            forall|i: int| 0 <= i < rendered@.len() ==> (#[trigger] rendered@[i]).index == i,
    {
        let mut rendered: Vec<RenderedStoryOption> = Vec::new();
        let mut index: usize = 0;
        while index < self.options.len()
            invariant
                index <= self.options@.len(),
                rendered@.len() == index,
                forall|i: int| 0 <= i < index ==> (#[trigger] rendered@[i]).index == i,
            decreases self.options@.len() - index,
        {
            rendered.push(
                RenderedStoryOption {
                    rendered_intro: self.options[index].intro_text.render(world),
                    index,
                },
            );
            index = index + 1;
        }
        rendered
    }

    /// Presents the options, tells the result of the one that is taken and
    /// returns where the story goes on.
    pub fn run<I: Interface>(&self, index: usize, interface: &mut I, world: &World) -> (next:
        StoryCursor)
        requires
            index < usize::MAX,
            old(interface).can_choose(self.options@.len()),
        ensures
            exists|taken: int|
                0 <= taken < self.options@.len() && next@ == after_option(
                    #[trigger] self.options@[taken],
                    index as int,
                ),
    {
        let rendered_options = self.render_options(world);
        let chosen_rendered = interface.choose_from(rendered_options);
        proof {
            let i = choose|i: int|
                0 <= i < rendered_options@.len() && rendered_options@[i] == chosen_rendered;
            assert(chosen_rendered.index == i);
        }
        let chosen = &self.options[chosen_rendered.index];
        match &chosen.result_text {
            Some(result_text) => {
                interface.write(result_text.render(world).as_str());
            },
            None => {},
        }
        match &chosen.next_node {
            Some(next_node) => StoryCursor { node: Some(next_node.clone()), position: 0, index: 0 },
            None => StoryCursor { node: None, position: index + 1, index: index + 1 },
        }
    }
}

impl StoryText {
    /// Tells the text and returns where the story goes on.
    pub fn run<I: Interface>(&self, index: usize, interface: &mut I, world: &World) -> (next:
        StoryCursor)
        requires
            index < usize::MAX,
        ensures
            next@ == after_text(index as int),
            forall|options: nat|
                final(interface).can_choose(options) == old(interface).can_choose(options),
    {
        interface.write(self.text.render(world).as_str());
        StoryCursor { node: None, position: index + 1, index }
    }
}

impl StoryElement {
    /// Whether the interface can take the element as it stands: a choice
    /// needs a selection among its options.
    pub open spec fn ready<I: Interface>(&self, interface: &I) -> bool {
        self matches StoryElement::Choice(choice) ==> interface.can_choose(choice.options@.len())
    }

    /// Tells one element under `index` and returns where the story goes
    /// on, or `None` where it ends.
    pub fn run<I: Interface>(&self, index: usize, interface: &mut I, world: &World) -> (next:
        Option<StoryCursor>)
        requires
            index < usize::MAX,
            self.ready(old(interface)),
        ensures
            match self {
                StoryElement::Text(_) => next matches Some(cursor) && cursor@ == after_text(
                    index as int,
                ),
                StoryElement::Choice(choice) => next matches Some(cursor) && exists|taken: int|
                    0 <= taken < choice.options@.len() && cursor@ == after_option(
                        #[trigger] choice.options@[taken],
                        index as int,
                    ),
                StoryElement::Exit => next is None,
            },
    {
        match self {
            StoryElement::Text(text) => Some(text.run(index, interface, world)),
            StoryElement::Choice(choice) => Some(choice.run(index, interface, world)),
            StoryElement::Exit => {
                interface.write("Goodbye! Thanks for playing.");
                None
            },
        }
    }
}

/// Once a name is found among the first `upto` nodes, it is found at the
/// same position among any more.
pub proof fn lemma_node_position_stays(nodes: Seq<StoryNode>, name: Seq<char>, upto: int, more: int)
    requires
        upto <= more,
        node_position(nodes, name, upto) is Some,
    ensures
        node_position(nodes, name, more) == node_position(nodes, name, upto),
    decreases more - upto,
{
    if upto < more {
        lemma_node_position_stays(nodes, name, upto, more - 1);
    }
}

/// A name resolves to the first node that bears it, and to none exactly
/// when no node does.
pub proof fn lemma_node_position(nodes: Seq<StoryNode>, name: Seq<char>, upto: int)
    requires
        0 <= upto <= nodes.len(),
    ensures
        match node_position(nodes, name, upto) {
            Some(i) => 0 <= i < upto && nodes[i].name_view() == name && forall|j: int|
                0 <= j < i ==> (#[trigger] nodes[j]).name_view() != name,
            None => forall|j: int| 0 <= j < upto ==> (#[trigger] nodes[j]).name_view() != name,
        },
    decreases upto,
{
    if upto > 0 {
        lemma_node_position(nodes, name, upto - 1);
    }
}

} // verus!
