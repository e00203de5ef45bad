use vstd::prelude::*;

verus! {

/// A finished session: its identifier, final score, creation time in
/// milliseconds since the Unix epoch, and final size in hundredths.
#[derive(Clone, Copy, PartialEq, Eq, Debug, Structural)]
pub struct GameRecord {
    pub id: u32,
    pub score: i32,
    pub timestamp: i64,
    pub player_size: u32,
}

/// The ledger of finished sessions and the next identifier to hand out.
#[derive(Clone, Debug)]
pub struct GameDatabase {
    pub records: Vec<GameRecord>,
    pub next_id: u32,
}

/// Relies on `std::time::SystemTime::now`, chrono's
/// `From<SystemTime> for DateTime<Utc>` and `DateTime::timestamp_millis`: the
/// current time in milliseconds since the Unix epoch, negative for a clock set
/// before it (chrono's conversion fails only for a clock beyond the range of
/// its dates, some 262,000 years away).
#[verifier::external_body]
fn now_millis() -> (r: i64) {
    chrono::DateTime::<chrono::Utc>::from(std::time::SystemTime::now()).timestamp_millis()
}

/// The identifier handed out after `id`; the counter stops at the end of `u32`.
pub open spec fn next_after(id: u32) -> u32 {
    if id == u32::MAX {
        id
    } else {
        (id + 1) as u32
    }
}

/// Whether some record in `s` carries `id`.
pub open spec fn has_id(s: Seq<GameRecord>, id: u32) -> bool {
    exists|i: int| 0 <= i < s.len() && s[i].id == id
}

/// `s` without its first record that carries `id` (unchanged if there is none).
pub open spec fn without_first(s: Seq<GameRecord>, id: u32) -> Seq<GameRecord>
    decreases s.len(),
{
    if s.len() == 0 {
        s
    } else if s[0].id == id {
        s.drop_first()
    } else {
        seq![s[0]] + without_first(s.drop_first(), id)
    }
}

proof fn lemma_without_first_at(s: Seq<GameRecord>, id: u32, i: int)
    requires
        0 <= i < s.len(),
        s[i].id == id,
        forall|j: int| 0 <= j < i ==> s[j].id != id,
    ensures
        without_first(s, id) == s.remove(i),
    decreases s.len(),
{
    if i > 0 {
        lemma_without_first_at(s.drop_first(), id, i - 1);
        assert(seq![s[0]] + s.drop_first().remove(i - 1) =~= s.remove(i));
    } else {
        assert(s.drop_first() =~= s.remove(0));
    }
}

proof fn lemma_without_absent(s: Seq<GameRecord>, id: u32)
    requires
        forall|j: int| 0 <= j < s.len() ==> s[j].id != id,
    ensures
        without_first(s, id) == s,
    decreases s.len(),
{
    if s.len() > 0 {
        lemma_without_absent(s.drop_first(), id);
        assert(seq![s[0]] + s.drop_first() =~= s);
    }
}

/// Deleting by an identifier that is present shortens the ledger by exactly
/// one; deleting by one that is absent leaves it as it was.
pub proof fn lemma_delete_length(s: Seq<GameRecord>, id: u32)
    ensures
        has_id(s, id) ==> without_first(s, id).len() == s.len() - 1,
        !has_id(s, id) ==> without_first(s, id) == s,
    decreases s.len(),
{
    if s.len() > 0 {
        lemma_delete_length(s.drop_first(), id);
        if s[0].id != id && has_id(s, id) {
            let i = choose|i: int| 0 <= i < s.len() && s[i].id == id;
            assert(s.drop_first()[i - 1].id == id);
        }
        if !has_id(s, id) {
            lemma_without_absent(s, id);
        }
    }
}

impl GameDatabase {
    /// An empty ledger whose first identifier is 1.
    pub fn new() -> (r: GameDatabase)
        ensures
            r.records@ == Seq::<GameRecord>::empty(),
            r.next_id == 1,
    {
        GameDatabase { records: Vec::new(), next_id: 1 }
    }

    /// Appends a record made at `timestamp` with the next identifier, and
    /// advances the identifier.
    pub fn add_record_at(&mut self, score: i32, player_size: u32, timestamp: i64)
        ensures
            final(self).records@ == old(self).records@.push(
                GameRecord { id: old(self).next_id, score, timestamp, player_size },
            ),
            final(self).next_id == next_after(old(self).next_id),
    {
        let record = GameRecord { id: self.next_id, score, timestamp, player_size };
        self.records.push(record);
        self.next_id = self.next_id.saturating_add(1);
    }

    /// Appends a record stamped with the current time.
    pub fn add_record(&mut self, score: i32, player_size: u32)
        ensures
            final(self).records.len() == old(self).records.len() + 1,
            final(self).records@.drop_last() == old(self).records@,
            final(self).records@.last().id == old(self).next_id,
            final(self).records@.last().score == score,
            final(self).records@.last().player_size == player_size,
            final(self).next_id == next_after(old(self).next_id),
    {
        let now = now_millis();
        self.add_record_at(score, player_size, now);
        assert(self.records@.drop_last() =~= old(self).records@);
    }

    /// Removes the first record carrying `id`; tells whether there was one.
    pub fn delete_record(&mut self, id: u32) -> (r: bool)
        ensures
            r == has_id(old(self).records@, id),
            final(self).records@ == without_first(old(self).records@, id),
            final(self).next_id == old(self).next_id,
    {
        let mut i: usize = 0;
        while i < self.records.len()
            invariant
                0 <= i <= self.records.len(),
                *self == *old(self),
                forall|j: int| 0 <= j < i ==> self.records@[j].id != id,
            decreases self.records.len() - i,
        {
            if self.records[i].id == id {
                proof {
                    lemma_without_first_at(self.records@, id, i as int);
                }
                self.records.remove(i);
                return true;
            }
            i = i + 1;
        }
        proof {
            lemma_without_absent(self.records@, id);
        }
        false
    }

    /// The records, oldest first.
    pub fn get_records(&self) -> (r: &Vec<GameRecord>)
        ensures
            r@ == self.records@,
    {
        &self.records
    }
}

} // verus!
