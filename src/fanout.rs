//! Pairing each joined room with its own idempotency token.
use vstd::prelude::*;

verus! {

/// One message send: the room and the transaction token that lets the
/// server drop a repeated delivery.
#[derive(Debug)]
pub struct Delivery {
    pub room: String,
    pub txn: u128,
}

/// Why no sends could be planned.
#[derive(Clone, Copy, Debug, PartialEq, Eq, Structural)]
pub enum NotifyError {
    /// There is not exactly one token per room.
    TokenCountMismatch,
    /// Two drawn tokens were equal.
    TokenCollision,
}

pub open spec fn all_distinct(tokens: Seq<u128>) -> bool {
    forall|i: int, j: int| 0 <= i < j < tokens.len() ==> tokens[i] != tokens[j]
}

/// Every room gets its own send, and no two sends share a token.
pub open spec fn deliveries_for(ds: Seq<Delivery>, rooms: Seq<String>) -> bool {
    &&& ds.len() == rooms.len()
    &&& forall|i: int| 0 <= i < ds.len() ==> (#[trigger] ds[i]).room@ == rooms[i]@
    &&& forall|i: int, j: int| 0 <= i < j < ds.len() ==> ds[i].txn != ds[j].txn
}

fn tokens_distinct(tokens: &Vec<u128>) -> (r: bool)
    ensures
        r == all_distinct(tokens@),
{
    let n = tokens.len();
    let mut j: usize = 0;
    while j < n
        invariant
            j <= n,
            n == tokens.len(),
            forall|a: int, b: int| 0 <= a < b < j ==> tokens@[a] != tokens@[b],
        decreases n - j,
    {
        let mut i: usize = 0;
        while i < j
            invariant
                i <= j < n,
                n == tokens.len(),
                forall|a: int| 0 <= a < i ==> tokens@[a] != tokens@[j as int],
            decreases j - i,
        {
            if tokens[i] == tokens[j] {
                return false;
            }
            i = i + 1;
        }
        j = j + 1;
    }
    true
}

/// Pairs each room with the token at the same place. There is a plan exactly
/// when there are as many tokens as rooms and no two are equal.
pub fn assign_tokens(rooms: &Vec<String>, tokens: &Vec<u128>) -> (r: Option<Vec<Delivery>>)
    ensures
        r is Some <==> rooms.len() == tokens.len() && all_distinct(tokens@),
        r matches Some(ds) ==> deliveries_for(ds@, rooms@) && forall|i: int|
            0 <= i < ds.len() ==> (#[trigger] ds[i]).txn == tokens[i],
{
    if rooms.len() != tokens.len() || !tokens_distinct(tokens) {
        return None;
    }
    let mut ds: Vec<Delivery> = Vec::new();
    let mut i: usize = 0;
    while i < rooms.len()
        invariant
            i <= rooms.len(),
            rooms.len() == tokens.len(),
            all_distinct(tokens@),
            ds.len() == i,
            forall|k: int| 0 <= k < i ==> (#[trigger] ds[k]).room@ == rooms[k]@ && ds[k].txn
                == tokens[k],
        decreases rooms.len() - i,
    {
        ds.push(Delivery { room: rooms[i].clone(), txn: tokens[i] });
        i = i + 1;
    }
    Some(ds)
}

/// Plans one send per joined room, each with its own token drawn by the
/// caller. Nothing is sent when notifications are off.
pub fn plan_notifications(rooms: &Vec<String>, tokens: &Vec<u128>, notify: bool) -> (r: Result<
    Vec<Delivery>,
    NotifyError,
>)
    ensures
        !notify ==> (r matches Ok(ds) && ds.len() == 0),
        notify ==> (r is Ok <==> rooms.len() == tokens.len() && all_distinct(tokens@)),
        notify && r is Ok ==> deliveries_for(r->Ok_0@, rooms@) && forall|i: int|
            0 <= i < rooms.len() ==> (#[trigger] r->Ok_0[i]).txn == tokens[i],
        notify ==> (r matches Err(NotifyError::TokenCountMismatch) <==> rooms.len()
            != tokens.len()),
        notify ==> (r matches Err(NotifyError::TokenCollision) <==> rooms.len() == tokens.len()
            && !all_distinct(tokens@)),
{
    if !notify {
        return Ok(Vec::new());
    }
    if rooms.len() != tokens.len() {
        return Err(NotifyError::TokenCountMismatch);
    }
    match assign_tokens(rooms, tokens) {
        Some(ds) => Ok(ds),
        None => Err(NotifyError::TokenCollision),
    }
}

} // verus!
