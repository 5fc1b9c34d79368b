//! The table: its components, the players' hands, and the mutations that the
//! hub applies to them.
use vstd::prelude::*;

verus! {

/// What a component is; decides which of its fields are meaningful.
#[derive(Debug, Clone, Copy, PartialEq, Eq, Structural)]
pub enum ComponentRole {
    Cursor,
    Builder,
    Text,
    Counter,
    Image,
}

/// A player's pointer on the table. `id` is the player number the hand was
/// created for.
#[derive(Debug, Clone, Copy, PartialEq, Eq, Structural)]
pub struct Hand {
    pub id: usize,
    pub x: i64,
    pub y: i64,
}

/// An interactive object on the table. `user`, when set, is the only player
/// number allowed to move it.
#[derive(Debug, Clone)]
pub struct Component {
    pub id: usize,
    pub role: ComponentRole,
    pub selectability: bool,
    pub is_opened: bool,
    pub is_selected: bool,
    pub user: Option<usize>,
    pub hide_others: bool,
    pub text: String,
    pub number: i64,
    pub image: Option<String>,
    pub x: i64,
    pub y: i64,
    pub w: i64,
    pub h: i64,
}

impl Component {
    /// A text card, unselected, with no number and no image.
    pub fn card(
        id: usize,
        selectability: bool,
        is_opened: bool,
        user: Option<usize>,
        hide_others: bool,
        text: String,
        x: i64,
        y: i64,
        w: i64,
        h: i64,
    ) -> (r: Self)
        ensures
            r == (Component {
                id,
                role: ComponentRole::Text,
                selectability,
                is_opened,
                is_selected: false,
                user,
                hide_others,
                text,
                number: 0,
                image: None,
                x,
                y,
                w,
                h,
            }),
    {
        Component {
            id,
            role: ComponentRole::Text,
            selectability,
            is_opened,
            is_selected: false,
            user,
            hide_others,
            text,
            number: 0,
            image: None,
            x,
            y,
            w,
            h,
        }
    }

    /// An open counter showing `number`, which nobody can select.
    pub fn counter(id: usize, user: Option<usize>, number: i64, x: i64, y: i64, w: i64, h: i64) -> (r: Self)
        ensures
            r == (Component {
                id,
                role: ComponentRole::Counter,
                selectability: false,
                is_opened: true,
                is_selected: false,
                user,
                hide_others: false,
                text: r.text,
                number,
                image: None,
                x,
                y,
                w,
                h,
            }),
            r.text@ == Seq::<char>::empty(),
    {
        Component {
            id,
            role: ComponentRole::Counter,
            selectability: false,
            is_opened: true,
            is_selected: false,
            user,
            hide_others: false,
            text: String::new(),
            number,
            image: None,
            x,
            y,
            w,
            h,
        }
    }

    /// An equal copy of the component.
    pub fn duplicate(&self) -> (r: Self)
        ensures
            r == *self,
    {
        let image = match &self.image {
            Some(s) => Some(s.clone()),
            None => None,
        };
        Component {
            id: self.id,
            role: self.role,
            selectability: self.selectability,
            is_opened: self.is_opened,
            is_selected: self.is_selected,
            user: self.user,
            hide_others: self.hide_others,
            text: self.text.clone(),
            number: self.number,
            image,
            x: self.x,
            y: self.y,
            w: self.w,
            h: self.h,
        }
    }
}

/// An equal copy of a list of components.
pub fn copy_components(v: &Vec<Component>) -> (r: Vec<Component>)
    ensures
        r@ == v@,
{
    let mut r: Vec<Component> = Vec::new();
    let mut i: usize = 0;
    while i < v.len()
        invariant
            i <= v@.len(),
            r@ == v@.subrange(0, i as int),
        decreases v@.len() - i,
    {
        r.push(v[i].duplicate());
        i = i + 1;
    }
    assert(v@.subrange(0, v@.len() as int) =~= v@);
    r
}

/// An equal copy of a list of hands.
pub fn copy_hands(v: &Vec<Hand>) -> (r: Vec<Hand>)
    ensures
        r@ == v@,
{
    let mut r: Vec<Hand> = Vec::new();
    let mut i: usize = 0;
    while i < v.len()
        invariant
            i <= v@.len(),
            r@ == v@.subrange(0, i as int),
        decreases v@.len() - i,
    {
        r.push(v[i]);
        i = i + 1;
    }
    assert(v@.subrange(0, v@.len() as int) =~= v@);
    r
}


/// The seed card at position `i`: id `i`, open, selectable, 100 by 100.
pub open spec fn is_seed_card(c: Component, i: usize, user: Option<usize>, hide_others: bool, text: Seq<char>, x: i64, y: i64) -> bool {
    &&& c == (Component {
        id: i,
        role: ComponentRole::Text,
        selectability: true,
        is_opened: true,
        is_selected: false,
        user,
        hide_others,
        text: c.text,
        number: 0,
        image: None,
        x,
        y,
        w: 100,
        h: 100,
    })
    &&& c.text@ == text
}

/// The seed counter at position `i`: showing zero, 100 by 100.
pub open spec fn is_seed_counter(c: Component, i: usize, user: Option<usize>, x: i64, y: i64) -> bool {
    &&& c == (Component {
        id: i,
        role: ComponentRole::Counter,
        selectability: false,
        is_opened: true,
        is_selected: false,
        user,
        hide_others: false,
        text: c.text,
        number: 0,
        image: None,
        x,
        y,
        w: 100,
        h: 100,
    })
    &&& c.text@ == Seq::<char>::empty()
}

/// The table that a hub starts with: five cards, two counters.
pub open spec fn is_seed(cs: Seq<Component>) -> bool {
    &&& cs.len() == 7
    &&& is_seed_card(cs[0], 0, Some(1), false, "プレイヤー1の操作カード"@, 32, 32)
    &&& is_seed_card(cs[1], 1, Some(2), false, "プレイヤー2の操作カード"@, 96, 32)
    &&& is_seed_card(cs[2], 2, None, false, "みんな操作できるカード"@, 32, 96)
    &&& is_seed_card(cs[3], 3, Some(1), true, "プレイヤー1しか見えない"@, 96, 96)
    &&& is_seed_card(cs[4], 4, Some(2), true, "プレイヤー2しか見えない"@, 64, 64)
    &&& is_seed_counter(cs[5], 5, Some(1), 160, 32)
    &&& is_seed_counter(cs[6], 6, Some(2), 160, 96)
}

/// Builds the seed table.
pub fn create_components() -> (r: Vec<Component>)
    ensures
        is_seed(r@),
{
    vec![
        Component::card(0, true, true, Some(1), false, "プレイヤー1の操作カード".to_owned(), 32, 32, 100, 100),
        Component::card(1, true, true, Some(2), false, "プレイヤー2の操作カード".to_owned(), 96, 32, 100, 100),
        Component::card(2, true, true, None, false, "みんな操作できるカード".to_owned(), 32, 96, 100, 100),
        Component::card(3, true, true, Some(1), true, "プレイヤー1しか見えない".to_owned(), 96, 96, 100, 100),
        Component::card(4, true, true, Some(2), true, "プレイヤー2しか見えない".to_owned(), 64, 64, 100, 100),
        Component::counter(5, Some(1), 0, 160, 32, 100, 100),
        Component::counter(6, Some(2), 0, 160, 96, 100, 100),
    ]
}

/// `c` with its selection flag set to `b`.
pub open spec fn with_selected(c: Component, b: bool) -> Component {
    Component { is_selected: b, ..c }
}

/// `c` with its opened flag set to `b`.
pub open spec fn with_opened(c: Component, b: bool) -> Component {
    Component { is_opened: b, ..c }
}

/// `c` showing `n`.
pub open spec fn with_number(c: Component, n: i64) -> Component {
    Component { number: n, ..c }
}

/// `c` moved to `(x, y)`.
pub open spec fn with_position(c: Component, x: i64, y: i64) -> Component {
    Component { x, y, ..c }
}

/// Whether the player numbered `requester` may move `c`: anyone may move a
/// component without owner, only its owner one with.
pub open spec fn may_move(c: Component, requester: usize) -> bool {
    match c.user {
        Some(p) => p == requester,
        None => true,
    }
}

/// The counter value after one step up; wraps at the ends of `i64`.
pub open spec fn number_up(n: i64) -> i64 {
    if n == i64::MAX { i64::MIN } else { (n + 1) as i64 }
}

/// The counter value after one step down; wraps at the ends of `i64`.
pub open spec fn number_down(n: i64) -> i64 {
    if n == i64::MIN { i64::MAX } else { (n - 1) as i64 }
}

} // verus!
