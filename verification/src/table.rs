use vstd::prelude::*;

use serenity::model::channel::PartialChannel;
use serenity::model::guild::Role;

use crate::errors::Error;
use crate::node::InteractionNode;
use crate::values::Mentionable;
use crate::values::TypedValue;
use crate::values::UserOrMember;
use crate::values::tag_of;
use crate::values::user_or_member_of;

verus! {

/// One typed-value cell of the argument table: the optional decoded value,
/// plus the option's name, kept for error messages.
pub struct SlashValue {
    /// The actual value; absent when the platform sent the option without one.
    pub inner: Option<TypedValue>,
    /// The name of the parameter, included for error messages.
    pub name: String,
}

impl SlashValue {
    /// Returns the inner value if it is present.
    pub fn expect_some(&self) -> (r: Result<TypedValue, Error>)
        ensures
            self.inner matches Some(v) ==> r == Ok::<TypedValue, Error>(v),
            self.inner is None ==> r == Err::<TypedValue, Error>(
                Error::MissingValue { name: self.name },
            ),
    {
        match &self.inner {
            Some(s) => Ok(s.clone()),
            None => Err(Error::MissingValue { name: self.name.clone() }),
        }
    }

    /// Returns the inner value if it is a `String`.
    pub fn get_string(&self) -> (r: Result<String, Error>)
        ensures
            self.inner matches Some(TypedValue::String(s)) ==> r == Ok::<String, Error>(s),
            self.inner is None ==> r == Err::<String, Error>(
                Error::MissingValue { name: self.name },
            ),
            self.inner matches Some(v) ==> (v is String || (r matches Err(e)
                && e matches Error::WrongType { expected, found, name } && expected@ == "String"@
                && found@ == tag_of(v) && name == self.name)),
    {
        match &self.inner {
            Some(TypedValue::String(s)) => Ok(s.clone()),
            Some(v) => Err(Error::WrongType {
                expected: String::from_str("String"),
                found: v.tag_name(),
                name: self.name.clone(),
            }),
            None => Err(Error::MissingValue { name: self.name.clone() }),
        }
    }

    /// Returns the inner value if it is an `Integer`.
    pub fn get_integer(&self) -> (r: Result<i64, Error>)
        ensures
            self.inner matches Some(TypedValue::Integer(i)) ==> r == Ok::<i64, Error>(i),
            self.inner is None ==> r == Err::<i64, Error>(Error::MissingValue { name: self.name }),
            self.inner matches Some(v) ==> (v is Integer || (r matches Err(e)
                && e matches Error::WrongType { expected, found, name } && expected@ == "Integer"@
                && found@ == tag_of(v) && name == self.name)),
    {
        match &self.inner {
            Some(TypedValue::Integer(i)) => Ok(*i),
            Some(v) => Err(Error::WrongType {
                expected: String::from_str("Integer"),
                found: v.tag_name(),
                name: self.name.clone(),
            }),
            None => Err(Error::MissingValue { name: self.name.clone() }),
        }
    }

    /// Returns the inner value if it is a `Boolean`.
    pub fn get_boolean(&self) -> (r: Result<bool, Error>)
        ensures
            self.inner matches Some(TypedValue::Boolean(b)) ==> r == Ok::<bool, Error>(b),
            self.inner is None ==> r == Err::<bool, Error>(Error::MissingValue { name: self.name }),
            self.inner matches Some(v) ==> (v is Boolean || (r matches Err(e)
                && e matches Error::WrongType { expected, found, name } && expected@ == "Boolean"@
                && found@ == tag_of(v) && name == self.name)),
    {
        match &self.inner {
            Some(TypedValue::Boolean(b)) => Ok(*b),
            Some(v) => Err(Error::WrongType {
                expected: String::from_str("Boolean"),
                found: v.tag_name(),
                name: self.name.clone(),
            }),
            None => Err(Error::MissingValue { name: self.name.clone() }),
        }
    }

    /// Returns the inner value if it is a user, composed with the optional
    /// membership record delivered beside it.
    pub fn get_user(&self) -> (r: Result<UserOrMember, Error>)
        ensures
            self.inner matches Some(TypedValue::User(u, m)) ==> r == Ok::<UserOrMember, Error>(
                user_or_member_of(u, m),
            ),
            self.inner is None ==> r == Err::<UserOrMember, Error>(
                Error::MissingValue { name: self.name },
            ),
            self.inner matches Some(v) ==> (v is User || (r matches Err(e)
                && e matches Error::WrongType { expected, found, name } && expected@ == "User"@
                && found@ == tag_of(v) && name == self.name)),
    {
        match &self.inner {
            Some(TypedValue::User(u, m)) => Ok(
                UserOrMember::from_pair(u.clone(), crate::values::clone_opt_member(m)),
            ),
            Some(v) => Err(Error::WrongType {
                expected: String::from_str("User"),
                found: v.tag_name(),
                name: self.name.clone(),
            }),
            None => Err(Error::MissingValue { name: self.name.clone() }),
        }
    }

    /// Returns the inner value if it is a `Channel`.
    pub fn get_channel(&self) -> (r: Result<PartialChannel, Error>)
        ensures
            self.inner matches Some(TypedValue::Channel(c)) ==> r == Ok::<PartialChannel, Error>(c),
            self.inner is None ==> r == Err::<PartialChannel, Error>(
                Error::MissingValue { name: self.name },
            ),
            self.inner matches Some(v) ==> (v is Channel || (r matches Err(e)
                && e matches Error::WrongType { expected, found, name } && expected@ == "Channel"@
                && found@ == tag_of(v) && name == self.name)),
    {
        match &self.inner {
            Some(TypedValue::Channel(c)) => Ok(c.clone()),
            Some(v) => Err(Error::WrongType {
                expected: String::from_str("Channel"),
                found: v.tag_name(),
                name: self.name.clone(),
            }),
            None => Err(Error::MissingValue { name: self.name.clone() }),
        }
    }

    /// Returns the inner value if it is a `Role`.
    pub fn get_role(&self) -> (r: Result<Role, Error>)
        ensures
            self.inner matches Some(TypedValue::Role(ro)) ==> r == Ok::<Role, Error>(ro),
            self.inner is None ==> r == Err::<Role, Error>(Error::MissingValue { name: self.name }),
            self.inner matches Some(v) ==> (v is Role || (r matches Err(e)
                && e matches Error::WrongType { expected, found, name } && expected@ == "Role"@
                && found@ == tag_of(v) && name == self.name)),
    {
        match &self.inner {
            Some(TypedValue::Role(ro)) => Ok(ro.clone()),
            Some(v) => Err(Error::WrongType {
                expected: String::from_str("Role"),
                found: v.tag_name(),
                name: self.name.clone(),
            }),
            None => Err(Error::MissingValue { name: self.name.clone() }),
        }
    }

    /// Returns the inner value if it is user-shaped or role-shaped, the two
    /// shapes a mentionable argument can take.
    pub fn get_mentionable(&self) -> (r: Result<Mentionable, Error>)
        ensures
            self.inner matches Some(TypedValue::User(u, m)) ==> r == Ok::<Mentionable, Error>(
                Mentionable::UserOrMember(user_or_member_of(u, m)),
            ),
            self.inner matches Some(TypedValue::Role(ro)) ==> r == Ok::<Mentionable, Error>(
                Mentionable::Role(ro),
            ),
            self.inner is None ==> r == Err::<Mentionable, Error>(
                Error::MissingValue { name: self.name },
            ),
            self.inner matches Some(v) ==> (v is User || v is Role || (r matches Err(e)
                && e matches Error::WrongType { expected, found, name }
                && expected@ == "Mentionable"@ && found@ == tag_of(v) && name == self.name)),
    {
        match &self.inner {
            Some(TypedValue::User(u, m)) => Ok(
                Mentionable::UserOrMember(
                    UserOrMember::from_pair(u.clone(), crate::values::clone_opt_member(m)),
                ),
            ),
            Some(TypedValue::Role(ro)) => Ok(Mentionable::Role(ro.clone())),
            Some(v) => Err(Error::WrongType {
                expected: String::from_str("Mentionable"),
                found: v.tag_name(),
                name: self.name.clone(),
            }),
            None => Err(Error::MissingValue { name: self.name.clone() }),
        }
    }
}

/// The table cell an option node contributes.
pub open spec fn cell_of(node: InteractionNode) -> SlashValue {
    SlashValue { inner: node.resolved, name: node.name }
}

/// The mapping that a sequence of cells builds, keyed by each cell's name;
/// on a repeated name the later cell wins.
pub open spec fn table_entries(cells: Seq<SlashValue>) -> Map<Seq<char>, SlashValue>
    decreases cells.len(),
{
    if cells.len() == 0 {
        Map::<Seq<char>, SlashValue>::empty()
    } else {
        table_entries(cells.drop_last()).insert(cells.last().name@, cells.last())
    }
}

/// The argument table built from a sequence of leaf-option nodes.
pub open spec fn table_of(opts: Seq<InteractionNode>) -> Map<Seq<char>, SlashValue> {
    table_entries(opts.map_values(|n: InteractionNode| cell_of(n)))
}

/// A cell whose name no later cell repeats is the one the table keeps.
proof fn lemma_entries_found(cells: Seq<SlashValue>, i: int)
    requires
        0 <= i < cells.len(),
        forall|j: int| i < j < cells.len() ==> cells[j].name@ != cells[i].name@,
    ensures
        table_entries(cells).contains_key(cells[i].name@),
        table_entries(cells)[cells[i].name@] == cells[i],
    decreases cells.len(),
{
    if i < cells.len() - 1 {
        assert(cells.drop_last()[i] == cells[i]);
        lemma_entries_found(cells.drop_last(), i);
    }
}

/// A name that no cell bears is absent from the table.
proof fn lemma_entries_absent(cells: Seq<SlashValue>, k: Seq<char>)
    requires
        forall|j: int| 0 <= j < cells.len() ==> cells[j].name@ != k,
    ensures
        !table_entries(cells).contains_key(k),
    decreases cells.len(),
{
    if cells.len() > 0 {
        lemma_entries_absent(cells.drop_last(), k);
    }
}

/// Every cell of a table is stored under its own name.
pub proof fn lemma_entries_named(cells: Seq<SlashValue>)
    ensures
        forall|k: Seq<char>| #[trigger] table_entries(cells).contains_key(k)
            ==> table_entries(cells)[k].name@ == k,
    decreases cells.len(),
{
    if cells.len() > 0 {
        lemma_entries_named(cells.drop_last());
    }
}

/// Round trip: when sibling names are unique (as the platform guarantees),
/// the table keeps every option's cell, unchanged, under the option's name.
pub proof fn lemma_table_round_trip(opts: Seq<InteractionNode>, i: int)
    requires
        0 <= i < opts.len(),
        forall|a: int, b: int| 0 <= a < b < opts.len() ==> opts[a].name@ != opts[b].name@,
    ensures
        table_of(opts).contains_key(opts[i].name@),
        table_of(opts)[opts[i].name@] == cell_of(opts[i]),
{
    let cells = opts.map_values(|n: InteractionNode| cell_of(n));
    assert(forall|j: int| 0 <= j < opts.len() ==> cells[j] == cell_of(opts[j]));
    lemma_entries_found(cells, i);
}

/// The flat mapping from option name to typed-value cell, built once per
/// decode and immutable afterwards.
pub struct SlashMap {
    entries: Vec<SlashValue>,
}

impl View for SlashMap {
    type V = Map<Seq<char>, SlashValue>;

    closed spec fn view(&self) -> Map<Seq<char>, SlashValue> {
        table_entries(self.entries@)
    }
}

impl SlashMap {
    /// The table's invariant: every cell is stored under its own name.
    pub open spec fn wf(&self) -> bool {
        forall|k: Seq<char>| #[trigger] self@.contains_key(k) ==> self@[k].name@ == k
    }

    /// Builds the table from the cells, in order; on a repeated name the
    /// later cell wins.
    pub(crate) fn from_cells(entries: Vec<SlashValue>) -> (r: SlashMap)
        ensures
            r@ == table_entries(entries@),
            r.wf(),
    {
        proof {
            lemma_entries_named(entries@);
        }
        SlashMap { entries }
    }

    /// Looks a name up in the table.
    fn find_cell<'a>(&'a self, name: &str) -> (r: Option<&'a SlashValue>)
        ensures
            match r {
                Some(cell) => self@.contains_key(name@) && *cell == self@[name@],
                None => !self@.contains_key(name@),
            },
    {
        let key = String::from_str(name);
        let mut i: usize = self.entries.len();
        while i > 0
            invariant
                i <= self.entries@.len(),
                key@ == name@,
                forall|j: int| i <= j < self.entries@.len() ==> self.entries@[j].name@ != name@,
            decreases i,
        {
            i = i - 1;
            if self.entries[i].name == key {
                proof {
                    lemma_entries_found(self.entries@, i as int);
                }
                return Some(&self.entries[i]);
            }
        }
        proof {
            lemma_entries_absent(self.entries@, name@);
        }
        None
    }

    /// If the table has the name, reads the cell as `get_string` does; a name
    /// absent from the table fails with `MissingValue` carrying that name.
    pub fn get_string(&self, name: &str) -> (r: Result<String, Error>)
        ensures
            !self@.contains_key(name@) ==> (r matches Err(e)
                && e matches Error::MissingValue { name: n } && n@ == name@),
            self@.contains_key(name@) ==> ({
                let cell = self@[name@];
                &&& (cell.inner matches Some(TypedValue::String(s)) ==> r == Ok::<String, Error>(s))
                &&& (cell.inner is None ==> r == Err::<String, Error>(
                    Error::MissingValue { name: cell.name },
                ))
                &&& (cell.inner matches Some(v) ==> (v is String || (r matches Err(e)
                    && e matches Error::WrongType { expected, found, name: n }
                    && expected@ == "String"@ && found@ == tag_of(v) && n == cell.name)))
            }),
    {
        match self.find_cell(name) {
            Some(cell) => cell.get_string(),
            None => Err(Error::MissingValue { name: String::from_str(name) }),
        }
    }

    /// If the table has the name, reads the cell as `get_integer` does; a name
    /// absent from the table fails with `MissingValue` carrying that name.
    pub fn get_integer(&self, name: &str) -> (r: Result<i64, Error>)
        ensures
            !self@.contains_key(name@) ==> (r matches Err(e)
                && e matches Error::MissingValue { name: n } && n@ == name@),
            self@.contains_key(name@) ==> ({
                let cell = self@[name@];
                &&& (cell.inner matches Some(TypedValue::Integer(i)) ==> r == Ok::<i64, Error>(i))
                &&& (cell.inner is None ==> r == Err::<i64, Error>(
                    Error::MissingValue { name: cell.name },
                ))
                &&& (cell.inner matches Some(v) ==> (v is Integer || (r matches Err(e)
                    && e matches Error::WrongType { expected, found, name: n }
                    && expected@ == "Integer"@ && found@ == tag_of(v) && n == cell.name)))
            }),
    {
        match self.find_cell(name) {
            Some(cell) => cell.get_integer(),
            None => Err(Error::MissingValue { name: String::from_str(name) }),
        }
    }

    /// If the table has the name, reads the cell as `get_boolean` does; a name
    /// absent from the table fails with `MissingValue` carrying that name.
    pub fn get_boolean(&self, name: &str) -> (r: Result<bool, Error>)
        ensures
            !self@.contains_key(name@) ==> (r matches Err(e)
                && e matches Error::MissingValue { name: n } && n@ == name@),
            self@.contains_key(name@) ==> ({
                let cell = self@[name@];
                &&& (cell.inner matches Some(TypedValue::Boolean(b)) ==> r == Ok::<bool, Error>(b))
                &&& (cell.inner is None ==> r == Err::<bool, Error>(
                    Error::MissingValue { name: cell.name },
                ))
                &&& (cell.inner matches Some(v) ==> (v is Boolean || (r matches Err(e)
                    && e matches Error::WrongType { expected, found, name: n }
                    && expected@ == "Boolean"@ && found@ == tag_of(v) && n == cell.name)))
            }),
    {
        match self.find_cell(name) {
            Some(cell) => cell.get_boolean(),
            None => Err(Error::MissingValue { name: String::from_str(name) }),
        }
    }

    /// If the table has the name, reads the cell as `get_user` does; a name
    /// absent from the table fails with `MissingValue` carrying that name.
    pub fn get_user(&self, name: &str) -> (r: Result<UserOrMember, Error>)
        ensures
            !self@.contains_key(name@) ==> (r matches Err(e)
                && e matches Error::MissingValue { name: n } && n@ == name@),
            self@.contains_key(name@) ==> ({
                let cell = self@[name@];
                &&& (cell.inner matches Some(TypedValue::User(u, m)) ==> r == Ok::<UserOrMember, Error>(user_or_member_of(u, m)))
                &&& (cell.inner is None ==> r == Err::<UserOrMember, Error>(
                    Error::MissingValue { name: cell.name },
                ))
                &&& (cell.inner matches Some(v) ==> (v is User || (r matches Err(e)
                    && e matches Error::WrongType { expected, found, name: n }
                    && expected@ == "User"@ && found@ == tag_of(v) && n == cell.name)))
            }),
    {
        match self.find_cell(name) {
            Some(cell) => cell.get_user(),
            None => Err(Error::MissingValue { name: String::from_str(name) }),
        }
    }

    /// If the table has the name, reads the cell as `get_channel` does; a name
    /// absent from the table fails with `MissingValue` carrying that name.
    pub fn get_channel(&self, name: &str) -> (r: Result<PartialChannel, Error>)
        ensures
            !self@.contains_key(name@) ==> (r matches Err(e)
                && e matches Error::MissingValue { name: n } && n@ == name@),
            self@.contains_key(name@) ==> ({
                let cell = self@[name@];
                &&& (cell.inner matches Some(TypedValue::Channel(c)) ==> r == Ok::<PartialChannel, Error>(c))
                &&& (cell.inner is None ==> r == Err::<PartialChannel, Error>(
                    Error::MissingValue { name: cell.name },
                ))
                &&& (cell.inner matches Some(v) ==> (v is Channel || (r matches Err(e)
                    && e matches Error::WrongType { expected, found, name: n }
                    && expected@ == "Channel"@ && found@ == tag_of(v) && n == cell.name)))
            }),
    {
        match self.find_cell(name) {
            Some(cell) => cell.get_channel(),
            None => Err(Error::MissingValue { name: String::from_str(name) }),
        }
    }

    /// If the table has the name, reads the cell as `get_role` does; a name
    /// absent from the table fails with `MissingValue` carrying that name.
    pub fn get_role(&self, name: &str) -> (r: Result<Role, Error>)
        ensures
            !self@.contains_key(name@) ==> (r matches Err(e)
                && e matches Error::MissingValue { name: n } && n@ == name@),
            self@.contains_key(name@) ==> ({
                let cell = self@[name@];
                &&& (cell.inner matches Some(TypedValue::Role(ro)) ==> r == Ok::<Role, Error>(ro))
                &&& (cell.inner is None ==> r == Err::<Role, Error>(
                    Error::MissingValue { name: cell.name },
                ))
                &&& (cell.inner matches Some(v) ==> (v is Role || (r matches Err(e)
                    && e matches Error::WrongType { expected, found, name: n }
                    && expected@ == "Role"@ && found@ == tag_of(v) && n == cell.name)))
            }),
    {
        match self.find_cell(name) {
            Some(cell) => cell.get_role(),
            None => Err(Error::MissingValue { name: String::from_str(name) }),
        }
    }

    /// If the table has the name, reads the cell as `get_mentionable` does; a
    /// name absent from the table fails with `MissingValue` carrying that name.
    pub fn get_mentionable(&self, name: &str) -> (r: Result<Mentionable, Error>)
        ensures
            !self@.contains_key(name@) ==> (r matches Err(e)
                && e matches Error::MissingValue { name: n } && n@ == name@),
            self@.contains_key(name@) ==> ({
                let cell = self@[name@];
                &&& (cell.inner matches Some(TypedValue::User(u, m)) ==> r == Ok::<
                    Mentionable,
                    Error,
                >(Mentionable::UserOrMember(user_or_member_of(u, m))))
                &&& (cell.inner matches Some(TypedValue::Role(ro)) ==> r == Ok::<
                    Mentionable,
                    Error,
                >(Mentionable::Role(ro)))
                &&& (cell.inner is None ==> r == Err::<Mentionable, Error>(
                    Error::MissingValue { name: cell.name },
                ))
                &&& (cell.inner matches Some(v) ==> (v is User || v is Role || (r matches Err(e)
                    && e matches Error::WrongType { expected, found, name: n }
                    && expected@ == "Mentionable"@ && found@ == tag_of(v) && n == cell.name)))
            }),
    {
        match self.find_cell(name) {
            Some(cell) => cell.get_mentionable(),
            None => Err(Error::MissingValue { name: String::from_str(name) }),
        }
    }
}

/// Implemented by types that decode themselves out of a `SlashMap`, for
/// generated decoding code.
pub trait FromSlashMap {
    /// Decodes `Self` from the argument table.
    fn from_slash_map(map: SlashMap) -> Result<Self, Error> where Self: core::marker::Sized;
}

} // verus!

