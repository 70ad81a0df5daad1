//! What the SQL statements that the server runs do to the `users` table,
//! and what the queries read from it. Each spec function below stands for
//! one statement; the properties that span several requests are proved
//! over them.

use vstd::prelude::*;
use crate::laws::{
    free_user_row, lemma_link_reads_each_user_in_turn, lemma_link_writes_only_free_pairs, link_run,
    link_well_driven,
};
use crate::link::{LinkAction, LinkEvent};

verus! {

/// A row of `users`.
pub struct StoredUser {
    pub name: Seq<char>,
    pub age: int,
    pub relationship_years: int,
    pub password_hash: Seq<char>,
    pub active: bool,
    pub partner_id: Option<i32>,
}

/// The `users` table: its rows by id, and the id the next insert gets
/// (`AUTOINCREMENT` never reuses an id).
pub struct UsersTable {
    pub rows: Map<i32, StoredUser>,
    pub next_id: int,
}

/// What `SELECT name, age, relationship_years` reads of a row.
pub struct ReadUser {
    pub name: Seq<char>,
    pub age: int,
    pub relationship_years: int,
}

/// Every id in use is below the next one handed out.
pub open spec fn table_wf(t: UsersTable) -> bool {
    forall|id: i32| #[trigger] t.rows.dom().contains(id) ==> id < t.next_id
}

/// `INSERT INTO users (name, age, relationship_years, password) VALUES
/// (?, ?, ?, ?)`: a new active row without a partner, under the next id.
pub open spec fn insert_user(
    t: UsersTable,
    name: Seq<char>,
    age: int,
    relationship_years: int,
    password_hash: Seq<char>,
) -> UsersTable {
    UsersTable {
        rows: t.rows.insert(
            t.next_id as i32,
            StoredUser { name, age, relationship_years, password_hash, active: true, partner_id: None },
        ),
        next_id: t.next_id + 1,
    }
}

/// What the profile queries read of a row.
pub open spec fn read_of(u: StoredUser) -> ReadUser {
    ReadUser { name: u.name, age: u.age, relationship_years: u.relationship_years }
}

/// `SELECT name, age, relationship_years FROM users WHERE id = ? AND
/// active = 1`.
pub open spec fn select_active_by_id(t: UsersTable, id: i32) -> Option<ReadUser> {
    if t.rows.dom().contains(id) && t.rows[id].active {
        Some(read_of(t.rows[id]))
    } else {
        None
    }
}

/// The ids of the rows that `SELECT ... FROM users WHERE active = 1` lists.
pub open spec fn active_ids(t: UsersTable) -> Set<i32> {
    t.rows.dom().filter(|id: i32| t.rows[id].active)
}

/// `read` is a possible result of `SELECT id, password FROM users WHERE
/// name = ? AND active = 1` read with `fetch_optional`: nothing exactly when
/// no active row has that name, else one such row.
pub open spec fn credentials_read(t: UsersTable, name: Seq<char>, read: Option<(i32, Seq<char>)>) -> bool {
    match read {
        None => forall|id: i32| #[trigger] t.rows.dom().contains(id) ==> !(t.rows[id].active
            && t.rows[id].name == name),
        Some((id, hash)) => t.rows.dom().contains(id) && t.rows[id].active && t.rows[id].name
            == name && t.rows[id].password_hash == hash,
    }
}

/// `UPDATE users SET name = ?, age = ?, relationship_years = ? WHERE id = ?`,
/// with the number of rows it touched.
pub open spec fn update_profile(
    t: UsersTable,
    id: i32,
    name: Seq<char>,
    age: int,
    relationship_years: int,
) -> (UsersTable, nat) {
    if t.rows.dom().contains(id) {
        (
            UsersTable {
                rows: t.rows.insert(id, StoredUser { name, age, relationship_years, ..t.rows[id] }),
                next_id: t.next_id,
            },
            1,
        )
    } else {
        (t, 0)
    }
}

/// `UPDATE users SET active = 0 WHERE id = ?`, with the number of rows it
/// touched.
pub open spec fn deactivate(t: UsersTable, id: i32) -> (UsersTable, nat) {
    if t.rows.dom().contains(id) {
        (
            UsersTable {
                rows: t.rows.insert(id, StoredUser { active: false, ..t.rows[id] }),
                next_id: t.next_id,
            },
            1,
        )
    } else {
        (t, 0)
    }
}

/// `SELECT partner_id FROM users WHERE id = ? AND active = 1`.
pub open spec fn select_partner_of(t: UsersTable, id: i32) -> Option<Option<i32>> {
    if t.rows.dom().contains(id) && t.rows[id].active {
        Some(t.rows[id].partner_id)
    } else {
        None
    }
}

/// `UPDATE users SET partner_id = ? WHERE id = ?`.
pub open spec fn set_partner(t: UsersTable, id: i32, partner: i32) -> UsersTable {
    if t.rows.dom().contains(id) {
        UsersTable {
            rows: t.rows.insert(id, StoredUser { partner_id: Some(partner), ..t.rows[id] }),
            next_id: t.next_id,
        }
    } else {
        t
    }
}

/// Both writes of a link: `user_id`'s partner set to `partner_id`, then
/// `partner_id`'s to `user_id`.
pub open spec fn write_partners(t: UsersTable, user_id: i32, partner_id: i32) -> UsersTable {
    set_partner(set_partner(t, user_id, partner_id), partner_id, user_id)
}

/// Partner links are mutual, never with oneself, and between stored users.
pub open spec fn partners_mutual(t: UsersTable) -> bool {
    forall|u: i32, v: i32|
        #![trigger t.rows[u].partner_id, t.rows.dom().contains(v)]
        t.rows.dom().contains(u) && t.rows[u].partner_id == Some(v) ==> u != v
            && t.rows.dom().contains(v) && t.rows[v].partner_id == Some(u)
}

/// A registered user reads back as registered: after the insert, the row
/// under the new id is active and reads as the name, age and relationship
/// length given, no earlier row is touched, and the table stays well formed.
pub proof fn lemma_registered_profile_reads_back(
    t: UsersTable,
    name: Seq<char>,
    age: u8,
    relationship_years: u8,
    password_hash: Seq<char>,
)
    requires
        table_wf(t),
        0 <= t.next_id <= i32::MAX,
    ensures
        ({
            let id = t.next_id as i32;
            let t2 = insert_user(t, name, age as int, relationship_years as int, password_hash);
            &&& !t.rows.dom().contains(id)
            &&& select_active_by_id(t2, id) == Some(
                ReadUser { name, age: age as int, relationship_years: relationship_years as int },
            )
            &&& active_ids(t2) == active_ids(t).insert(id)
            &&& forall|other: i32| other != id ==> select_active_by_id(t2, other) == select_active_by_id(t, other)
            &&& table_wf(t2)
            &&& partners_mutual(t) ==> partners_mutual(t2)
        }),
        // The integer columns come back as `i32`; cutting them to a byte gives
        // back what was registered.
        ((age as i32) as u8) == age,
        ((relationship_years as i32) as u8) == relationship_years,
{
    let id = t.next_id as i32;
    let t2 = insert_user(t, name, age as int, relationship_years as int, password_hash);
    assert(!t.rows.dom().contains(id));
    assert(active_ids(t2) =~= active_ids(t).insert(id));
    assert(((age as i32) as u8) == age) by (bit_vector);
    assert(((relationship_years as i32) as u8) == relationship_years) by (bit_vector);
    if partners_mutual(t) {
        assert forall|u: i32, v: i32|
            t2.rows.dom().contains(u) && t2.rows[u].partner_id == Some(v) implies u != v
                && t2.rows.dom().contains(v) && t2.rows[v].partner_id == Some(u) by {
            assert(u != id);
            assert(t.rows.dom().contains(u) && t.rows[u].partner_id == Some(v));
            assert(t.rows.dom().contains(v));
        }
    }
}

/// A soft delete hides the user: the row stays, but the lookup by id finds
/// nothing, the list loses exactly that user, and a login by that name
/// finds no one unless another active user has the same name.
pub proof fn lemma_deactivated_user_hidden(t: UsersTable, k: i32)
    requires
        t.rows.dom().contains(k),
        t.rows[k].active,
    ensures
        ({
            let (t2, n) = deactivate(t, k);
            &&& n == 1
            &&& t2.rows.dom() == t.rows.dom()
            &&& select_active_by_id(t2, k) == None::<ReadUser>
            &&& active_ids(t).contains(k)
            &&& active_ids(t2) == active_ids(t).remove(k)
            &&& forall|other: i32| other != k ==> select_active_by_id(t2, other) == select_active_by_id(t, other)
            &&& (forall|id: i32| #[trigger] t.rows.dom().contains(id) && id != k ==> !(t.rows[id].active
                && t.rows[id].name == t.rows[k].name)) ==> forall|read: Option<(i32, Seq<char>)>|
                #[trigger] credentials_read(t2, t.rows[k].name, read) ==> read is None
        }),
{
    let (t2, n) = deactivate(t, k);
    assert(t2.rows.dom() =~= t.rows.dom());
    assert(active_ids(t2) =~= active_ids(t).remove(k));
}

/// Updating a profile twice with the same values leaves the table as the
/// first update left it, and touches as many rows: the second request gets
/// the same answer.
pub proof fn lemma_update_idempotent(
    t: UsersTable,
    id: i32,
    name: Seq<char>,
    age: int,
    relationship_years: int,
)
    ensures
        ({
            let (t1, n1) = update_profile(t, id, name, age, relationship_years);
            let (t2, n2) = update_profile(t1, id, name, age, relationship_years);
            t2 == t1 && n2 == n1
        }),
{
    let (t1, n1) = update_profile(t, id, name, age, relationship_years);
    let (t2, n2) = update_profile(t1, id, name, age, relationship_years);
    if t.rows.dom().contains(id) {
        assert(t2.rows =~= t1.rows);
    }
}

/// Deleting twice leaves the table as the first delete left it, and
/// touches as many rows: the second request gets the same answer.
pub proof fn lemma_deactivate_idempotent(t: UsersTable, id: i32)
    ensures
        ({
            let (t1, n1) = deactivate(t, id);
            let (t2, n2) = deactivate(t1, id);
            t2 == t1 && n2 == n1
        }),
{
    let (t1, n1) = deactivate(t, id);
    let (t2, n2) = deactivate(t1, id);
    if t.rows.dom().contains(id) {
        assert(t2.rows =~= t1.rows);
    }
}

/// Updating a profile and deleting a user leave partner links mutual.
pub proof fn lemma_profile_writes_keep_partners_mutual(
    t: UsersTable,
    id: i32,
    name: Seq<char>,
    age: int,
    relationship_years: int,
)
    requires
        partners_mutual(t),
    ensures
        partners_mutual(update_profile(t, id, name, age, relationship_years).0),
        partners_mutual(deactivate(t, id).0),
{
    let t1 = update_profile(t, id, name, age, relationship_years).0;
    let t2 = deactivate(t, id).0;
    assert(t1.rows.dom() =~= t.rows.dom());
    assert(t2.rows.dom() =~= t.rows.dom());
    assert forall|u: i32, v: i32|
        t1.rows.dom().contains(u) && t1.rows[u].partner_id == Some(v) implies u != v
            && t1.rows.dom().contains(v) && t1.rows[v].partner_id == Some(u) by {
        assert(t.rows.dom().contains(u));
        assert(t1.rows[u].partner_id == t.rows[u].partner_id);
        assert(t.rows[u].partner_id == Some(v));
        assert(t.rows.dom().contains(v));
        assert(t1.rows[v].partner_id == t.rows[v].partner_id);
    }
    assert forall|u: i32, v: i32|
        t2.rows.dom().contains(u) && t2.rows[u].partner_id == Some(v) implies u != v
            && t2.rows.dom().contains(v) && t2.rows[v].partner_id == Some(u) by {
        assert(t.rows[u].partner_id == Some(v));
        assert(t.rows.dom().contains(v));
    }
}

/// Writing two free, distinct, stored users as each other's partners keeps
/// links mutual.
pub proof fn lemma_write_partners_keeps_mutual(t: UsersTable, my_id: i32, partner_id: i32)
    requires
        partners_mutual(t),
        my_id != partner_id,
        t.rows.dom().contains(my_id),
        t.rows.dom().contains(partner_id),
        t.rows[my_id].partner_id == None::<i32>,
        t.rows[partner_id].partner_id == None::<i32>,
    ensures
        partners_mutual(write_partners(t, my_id, partner_id)),
        write_partners(t, my_id, partner_id).rows[my_id].partner_id == Some(partner_id),
        write_partners(t, my_id, partner_id).rows[partner_id].partner_id == Some(my_id),
{
    let t1 = set_partner(t, my_id, partner_id);
    let t2 = set_partner(t1, partner_id, my_id);
    assert(t2.rows.dom() =~= t.rows.dom());
    assert forall|u: i32, v: i32|
        t2.rows.dom().contains(u) && t2.rows[u].partner_id == Some(v) implies u != v
            && t2.rows.dom().contains(v) && t2.rows[v].partner_id == Some(u) by {
        if u != my_id && u != partner_id {
            assert(t.rows[u].partner_id == Some(v));
            assert(t.rows.dom().contains(v));
            assert(t.rows[v].partner_id == Some(u));
        }
    }
}

/// Linking keeps partner links mutual, never with oneself, and between
/// stored users: when the exchange asks for the writes, the two reads it
/// was fed came from a table whose links were mutual, and the writes run,
/// the table's links stay mutual and the two users are each other's
/// partners.
pub proof fn lemma_link_keeps_partners_mutual(
    t: UsersTable,
    my_id: i32,
    partner_id: i32,
    events: Seq<LinkEvent>,
)
    requires
        partners_mutual(t),
        link_well_driven(my_id, partner_id, events),
        events.len() >= 1 ==> events[0] == (LinkEvent::PartnerColumn {
            read: Ok(select_partner_of(t, my_id)),
        }),
        events.len() >= 2 ==> events[1] == (LinkEvent::PartnerColumn {
            read: Ok(select_partner_of(t, partner_id)),
        }),
        link_run(my_id, partner_id, events).action is WritePartners,
    ensures
        link_run(my_id, partner_id, events).action == (LinkAction::WritePartners {
            user_id: my_id,
            partner_id,
        }),
        partners_mutual(write_partners(t, my_id, partner_id)),
        write_partners(t, my_id, partner_id).rows[my_id].partner_id == Some(partner_id),
        write_partners(t, my_id, partner_id).rows[partner_id].partner_id == Some(my_id),
{
    lemma_link_writes_only_free_pairs(my_id, partner_id, events);
    assert(events[0] == free_user_row());
    assert(select_partner_of(t, my_id) == Some(None::<i32>));
    assert(select_partner_of(t, partner_id) == Some(None::<i32>));
    lemma_write_partners_keeps_mutual(t, my_id, partner_id);
}

/// Every read the exchange was fed is the answer the table gives to the
/// read the exchange asked for just before.
pub open spec fn link_fed_from(t: UsersTable, my_id: i32, partner_id: i32, events: Seq<LinkEvent>) -> bool {
    forall|k: int|
        0 <= k < events.len() ==> match #[trigger] link_run(my_id, partner_id, events.take(k)).action {
            LinkAction::FetchPartnerOf { user_id } => events[k] == (LinkEvent::PartnerColumn {
                read: Ok(select_partner_of(t, user_id)),
            }),
            _ => true,
        }
}

/// Run against the table, linking asks for the writes only when both the
/// logged-in user and the other user are stored, active and without a
/// partner, as the table says of each; the writes then keep links mutual.
pub proof fn lemma_link_fed_by_table_keeps_mutual(
    t: UsersTable,
    my_id: i32,
    partner_id: i32,
    events: Seq<LinkEvent>,
)
    requires
        partners_mutual(t),
        link_well_driven(my_id, partner_id, events),
        link_fed_from(t, my_id, partner_id, events),
        link_run(my_id, partner_id, events).action is WritePartners,
    ensures
        select_partner_of(t, my_id) == Some(None::<i32>),
        select_partner_of(t, partner_id) == Some(None::<i32>),
        my_id != partner_id,
        partners_mutual(write_partners(t, my_id, partner_id)),
        write_partners(t, my_id, partner_id).rows[my_id].partner_id == Some(partner_id),
        write_partners(t, my_id, partner_id).rows[partner_id].partner_id == Some(my_id),
{
    reveal_with_fuel(link_run, 3);
    lemma_link_writes_only_free_pairs(my_id, partner_id, events);
    let e0 = events.take(0);
    let e1 = events.take(1);
    assert(e0 =~= Seq::<LinkEvent>::empty());
    assert(e1.drop_last() =~= e0);
    assert(e1.last() == events[0]);
    lemma_link_reads_each_user_in_turn(my_id, partner_id, e0);
    assert(link_run(my_id, partner_id, e0).action == (LinkAction::FetchPartnerOf { user_id: my_id }));
    assert(link_run(my_id, partner_id, e1).action == (LinkAction::FetchPartnerOf { user_id: partner_id }));
    assert(events[0] == (LinkEvent::PartnerColumn { read: Ok(select_partner_of(t, my_id)) }));
    assert(events[1] == (LinkEvent::PartnerColumn { read: Ok(select_partner_of(t, partner_id)) }));
    lemma_write_partners_keeps_mutual(t, my_id, partner_id);
}

} // verus!
