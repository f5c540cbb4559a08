//! Items, stacks of equal items, and an inventory that holds one stack per
//! item id.

use vstd::prelude::*;
use vstd::string::StringExecFns;

verus! {

/// What a key opens.
#[derive(Debug, PartialEq)]
pub struct KeyData {
    doors: Vec<String>,
}

impl KeyData {
    /// The doors that the key opens.
    pub closed spec fn doors(&self) -> Seq<Seq<char>> {
        Seq::new(self.doors@.len(), |i: int| self.doors@[i]@)
    }

    pub fn new(doors: Vec<String>) -> (key: KeyData)
        ensures
            key.doors() == Seq::new(doors@.len(), |i: int| doors@[i]@),
    {
        KeyData { doors }
    }

    /// Whether `door` is among the doors of the key.
    pub fn opens(&self, door: &str) -> (opens: bool)
        ensures
            opens == self.doors().contains(door@),
    {
        let wanted = String::from_str(door);
        let mut i: usize = 0;
        while i < self.doors.len()
            invariant
                i <= self.doors@.len(),
                wanted@ == door@,
                forall|j: int| 0 <= j < i ==> self.doors()[j] != door@,
            decreases self.doors@.len() - i,
        {
            if self.doors[i] == wanted {
                assert(self.doors()[i as int] == door@);
                return true;
            }
            i = i + 1;
        }
        false
    }
}

#[derive(Debug, PartialEq)]
pub enum ItemBehavior {
    Key(KeyData),
    Equipment,
}

#[derive(Debug, PartialEq)]
pub struct Item {
    id: String,
    name: String,
    behaviors: Vec<ItemBehavior>,
}

impl Item {
    pub closed spec fn id_view(&self) -> Seq<char> {
        self.id@
    }

    pub closed spec fn name_view(&self) -> Seq<char> {
        self.name@
    }

    pub closed spec fn behaviors_view(&self) -> Seq<ItemBehavior> {
        self.behaviors@
    }

    pub fn new(id: String, name: String, behaviors: Vec<ItemBehavior>) -> (item: Item)
        ensures
            item.id_view() == id@,
            item.name_view() == name@,
            item.behaviors_view() == behaviors@,
    {
        Item { id, name, behaviors }
    }

    pub fn id(&self) -> (id: &str)
        ensures
            id@ == self.id_view(),
    {
        self.id.as_str()
    }

    pub fn name(&self) -> (name: &str)
        ensures
            name@ == self.name_view(),
    {
        self.name.as_str()
    }

    pub fn behaviors(&self) -> (behaviors: &[ItemBehavior])
        ensures
            behaviors@ == self.behaviors_view(),
    {
        self.behaviors.as_slice()
    }
}

/// A number of items of one kind.
#[derive(Debug, PartialEq)]
pub struct ItemStack {
    item: Item,
    count: i64,
}

impl ItemStack {
    pub closed spec fn spec_item(&self) -> Item {
        self.item
    }

    pub closed spec fn spec_count(&self) -> int {
        self.count as int
    }

    /// A stack never holds less than nothing.
    pub open spec fn wf(&self) -> bool {
        self.spec_count() >= 0
    }

    pub fn item(&self) -> (item: &Item)
        ensures
            *item == self.spec_item(),
    {
        &self.item
    }

    pub fn count(&self) -> (count: i64)
        ensures
            count == self.spec_count(),
    {
        self.count
    }

    pub fn add(&mut self)
        requires
            old(self).spec_count() < i64::MAX,
        ensures
            final(self).spec_item() == old(self).spec_item(),
            final(self).spec_count() == old(self).spec_count() + 1,
    {
        self.count = self.count + 1;
    }

    /// Adds n items to the stack. Negative values for n change nothing.
    pub fn add_n(&mut self, n: i64)
        requires
            n >= 0 ==> old(self).spec_count() + n <= i64::MAX,
        ensures
            final(self).spec_item() == old(self).spec_item(),
            final(self).spec_count() == if n < 0 {
                old(self).spec_count()
            } else {
                old(self).spec_count() + n
            },
    {
        if n < 0 {
            return ;
        }
        self.count = self.count + n
    }

    /// Takes one item off the stack, if there is one.
    pub fn remove(&mut self)
        requires
            old(self).wf(),
        ensures
            final(self).spec_item() == old(self).spec_item(),
            final(self).spec_count() == if old(self).spec_count() == 0 {
                0
            } else {
                old(self).spec_count() - 1
            },
            final(self).wf(),
    {
        if !self.empty() {
            self.count = self.count - 1;
        }
    }

    /// Takes n items off the stack, or all of them if there are fewer.
    /// Negative values for n change nothing.
    pub fn remove_n(&mut self, n: i64)
        requires
            old(self).wf(),
        ensures
            final(self).spec_item() == old(self).spec_item(),
            final(self).spec_count() == if n < 0 {
                old(self).spec_count()
            } else if n > old(self).spec_count() {
                0
            } else {
                old(self).spec_count() - n
            },
            final(self).wf(),
    {
        if n < 0 {
            return ;
        }
        if n > self.count {
            self.count = 0
        } else {
            self.count = self.count - n;
        }
    }

    pub fn empty(&self) -> (empty: bool)
        ensures
            empty == (self.spec_count() == 0),
    {
        self.count == 0
    }
}

/// The first position among the first `upto` stacks that holds items of
/// the given id.
pub open spec fn stack_position(stacks: Seq<ItemStack>, id: Seq<char>, upto: int) -> Option<int>
    decreases upto,
{
    if upto <= 0 {
        None
    } else {
        match stack_position(stacks, id, upto - 1) {
            Some(i) => Some(i),
            None => if stacks[upto - 1].spec_item().id_view() == id {
                Some(upto - 1)
            } else {
                None
            },
        }
    }
}

/// The position of the stack of an id, if the inventory has one.
pub open spec fn stack_of(stacks: Seq<ItemStack>, id: Seq<char>) -> Option<int> {
    stack_position(stacks, id, stacks.len() as int)
}

/// The number of items in the first `upto` stacks.
pub open spec fn item_total(stacks: Seq<ItemStack>, upto: int) -> int
    decreases upto,
{
    if upto <= 0 {
        0
    } else {
        item_total(stacks, upto - 1) + stacks[upto - 1].spec_count()
    }
}

/// The invariant of an inventory: no stack holds less than nothing, and no
/// two stacks hold items of one id.
pub open spec fn stacks_wf(stacks: Seq<ItemStack>) -> bool {
    &&& forall|i: int| 0 <= i < stacks.len() ==> (#[trigger] stacks[i]).wf()
    &&& forall|i: int, j: int|
        0 <= i < j < stacks.len() ==> (#[trigger] stacks[i]).spec_item().id_view() != (
        #[trigger] stacks[j]).spec_item().id_view()
}

pub struct Inventory {
    // One stack per item id, in the order in which the ids came.
    items: Vec<ItemStack>,
}

impl Inventory {
    pub closed spec fn stacks(&self) -> Seq<ItemStack> {
        self.items@
    }

    pub open spec fn wf(&self) -> bool {
        stacks_wf(self.stacks())
    }

    pub fn new() -> (inventory: Inventory)
        ensures
            inventory.stacks().len() == 0,
            inventory.wf(),
    {
        Inventory { items: Vec::new() }
    }

    fn find(&self, id: &str) -> (found: Option<usize>)
        ensures
            match found {
                Some(i) => stack_of(self.stacks(), id@) == Some(i as int) && i
                    < self.stacks().len(),
                None => stack_of(self.stacks(), id@) == None::<int>,
            },
    {
        let wanted = String::from_str(id);
        let mut i: usize = 0;
        while i < self.items.len()
            invariant
                i <= self.items@.len(),
                wanted@ == id@,
                stack_position(self.stacks(), id@, i as int) == None::<int>,
            decreases self.items@.len() - i,
        {
            if self.items[i].item.id == wanted {
                proof {
                    lemma_stack_position_stays(
                        self.stacks(),
                        id@,
                        i + 1,
                        self.stacks().len() as int,
                    );
                }
                return Some(i);
            }
            i = i + 1;
        }
        None
    }

    /// Adds one item: to the stack of its id where there is one, whose
    /// item stays as it is, and else as a new stack of one.
    pub fn add_item(&mut self, item: Item)
        requires
            old(self).wf(),
            stack_of(old(self).stacks(), item.id_view()) matches Some(i) ==> old(
                self,
            ).stacks()[i].spec_count() < i64::MAX,
        ensures
            final(self).wf(),
            match stack_of(old(self).stacks(), item.id_view()) {
                Some(i) => {
                    &&& final(self).stacks().len() == old(self).stacks().len()
                    &&& forall|j: int|
                        0 <= j < old(self).stacks().len() && j != i ==> final(self).stacks()[j]
                            == old(self).stacks()[j]
                    &&& final(self).stacks()[i].spec_item() == old(self).stacks()[i].spec_item()
                    &&& final(self).stacks()[i].spec_count() == old(self).stacks()[i].spec_count()
                        + 1
                },
                None => {
                    &&& final(self).stacks().len() == old(self).stacks().len() + 1
                    &&& forall|j: int|
                        0 <= j < old(self).stacks().len() ==> final(self).stacks()[j] == old(
                            self,
                        ).stacks()[j]
                    &&& final(self).stacks().last().spec_item() == item
                    &&& final(self).stacks().last().spec_count() == 1
                },
            },
    {
        match self.find(item.id()) {
            Some(i) => {
                self.items[i].add();
            },
            None => {
                proof {
                    lemma_stack_position(self.stacks(), item.id_view(), self.stacks().len() as int);
                }
                let mut stack = ItemStack { item, count: 0 };
                stack.add();
                self.items.push(stack);
            },
        }
    }

    /// The stack of an id, unless the inventory has none or it is empty.
    pub fn get_stack_by_id(&self, id: &str) -> (found: Option<&ItemStack>)
        ensures
            match found {
                Some(stack) => stack_of(self.stacks(), id@) is Some && *stack
                    == self.stacks()[stack_of(self.stacks(), id@).unwrap()] && stack.spec_count()
                    != 0,
                None => stack_of(self.stacks(), id@) matches Some(i) ==> self.stacks()[i].spec_count()
                    == 0,
            },
    {
        match self.find(id) {
            Some(i) => {
                if self.items[i].empty() {
                    None
                } else {
                    Some(&self.items[i])
                }
            },
            None => None,
        }
    }

    /// The stack of an id for change, unless the inventory has none or it
    /// is empty. What is done to the stack is done to the inventory's.
    pub fn get_mut_stack_by_id(&mut self, id: &str) -> (found: Option<&mut ItemStack>)
        ensures
            match found {
                Some(stack) => {
                    &&& stack_of(old(self).stacks(), id@) is Some
                    &&& *stack == old(self).stacks()[stack_of(old(self).stacks(), id@).unwrap()]
                    &&& stack.spec_count() != 0
                    &&& final(self).stacks() == old(self).stacks().update(
                        stack_of(old(self).stacks(), id@).unwrap(),
                        *final(stack),
                    )
                },
                None => {
                    &&& final(self).stacks() == old(self).stacks()
                    &&& stack_of(old(self).stacks(), id@) matches Some(i) ==> old(
                        self,
                    ).stacks()[i].spec_count() == 0
                },
            },
    {
        match self.find(id) {
            Some(i) => {
                if self.items[i].empty() {
                    None
                } else {
                    Some(&mut self.items[i])
                }
            },
            None => None,
        }
    }

    /// The number of items in all stacks.
    pub fn total_item_count(&self) -> (count: i64)
        requires
            self.wf(),
            item_total(self.stacks(), self.stacks().len() as int) <= i64::MAX,
        ensures
            count == item_total(self.stacks(), self.stacks().len() as int),
    {
        let mut count: i64 = 0;
        let mut i: usize = 0;
        proof {
            lemma_item_total_grows(self.stacks(), 0, self.stacks().len() as int);
        }
        while i < self.items.len()
            invariant
                i <= self.items@.len(),
                self.wf(),
                item_total(self.stacks(), self.stacks().len() as int) <= i64::MAX,
                count == item_total(self.stacks(), i as int),
                0 <= count,
            decreases self.items@.len() - i,
        {
            proof {
                lemma_item_total_grows(self.stacks(), i + 1, self.stacks().len() as int);
                assert(self.stacks()[i as int].wf());
            }
            count = count + self.items[i].count;
            i = i + 1;
        }
        count
    }

    pub fn empty(&self) -> (empty: bool)
        requires
            self.wf(),
            item_total(self.stacks(), self.stacks().len() as int) <= i64::MAX,
        ensures
            empty == (item_total(self.stacks(), self.stacks().len() as int) == 0),
    {
        self.total_item_count() == 0
    }
}

/// Once an id is found among the first `upto` stacks, it is found at the
/// same position among any more.
pub proof fn lemma_stack_position_stays(stacks: Seq<ItemStack>, id: Seq<char>, upto: int, more: int)
    requires
        upto <= more,
        stack_position(stacks, id, upto) is Some,
    ensures
        stack_position(stacks, id, more) == stack_position(stacks, id, upto),
    decreases more - upto,
{
    if upto < more {
        lemma_stack_position_stays(stacks, id, upto, more - 1);
    }
}

/// An id resolves to the first stack that holds it, and to none exactly
/// when no stack does.
pub proof fn lemma_stack_position(stacks: Seq<ItemStack>, id: Seq<char>, upto: int)
    requires
        0 <= upto <= stacks.len(),
    ensures
        match stack_position(stacks, id, upto) {
            Some(i) => 0 <= i < upto && stacks[i].spec_item().id_view() == id && forall|j: int|
                0 <= j < i ==> (#[trigger] stacks[j]).spec_item().id_view() != id,
            None => forall|j: int|
                0 <= j < upto ==> (#[trigger] stacks[j]).spec_item().id_view() != id,
        },
    decreases upto,
{
    if upto > 0 {
        lemma_stack_position(stacks, id, upto - 1);
    }
}

/// With no stack below nothing, the total never shrinks as stacks are
/// added to it.
pub proof fn lemma_item_total_grows(stacks: Seq<ItemStack>, upto: int, more: int)
    requires
        stacks_wf(stacks),
        0 <= upto <= more <= stacks.len(),
    ensures
        0 <= item_total(stacks, upto) <= item_total(stacks, more),
    decreases more,
{
    if upto < more {
        lemma_item_total_grows(stacks, upto, more - 1);
        assert(stacks[more - 1].wf());
    } else if upto > 0 {
        lemma_item_total_grows(stacks, upto - 1, upto - 1);
        assert(stacks[upto - 1].wf());
    }
}

} // verus!
