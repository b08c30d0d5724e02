//! The service's memory of trips, orders and busy users.
use vstd::prelude::*;
use crate::keyed::{find_key, has_key, index_of, keyed_view, keys_unique, remove_key, upsert, value_of,
    lemma_remove_keeps_unique, lemma_upsert_keeps_unique};
use crate::model::{Order, OrderStatus, OrderView, Trip, TripStatus, TripView, opt_view, trip_status_name};
use crate::text::text_eq;

verus! {

/// The model of the cache: trips by id and orders by payer openid, in the order they were first
/// stored, and the openids of busy users.
pub struct CacheView {
    pub trips: Seq<(Seq<char>, TripView)>,
    pub orders: Seq<(Seq<char>, OrderView)>,
    pub busy: Seq<Seq<char>>,
}

/// No text occurs twice.
pub open spec fn no_duplicates(s: Seq<Seq<char>>) -> bool {
    forall|i: int, j: int| 0 <= i < j < s.len() ==> #[trigger] s[i] != #[trigger] s[j]
}

/// The trips whose state is `status`, in order.
pub open spec fn trips_with_status_spec(e: Seq<(Seq<char>, TripView)>, status: Seq<char>) -> Seq<TripView>
    decreases e.len(),
{
    if e.len() == 0 {
        Seq::empty()
    } else {
        let rest = trips_with_status_spec(e.drop_last(), status);
        if e.last().1.status == status { rest.push(e.last().1) } else { rest }
    }
}

/// The first trip offered by `openid`.
pub open spec fn trip_of_openid(e: Seq<(Seq<char>, TripView)>, openid: Seq<char>) -> Option<TripView>
    decreases e.len(),
{
    if e.len() == 0 {
        None
    } else if e[0].1.openid == openid {
        Some(e[0].1)
    } else {
        trip_of_openid(e.drop_first(), openid)
    }
}

/// The orders on trip `trip_id`, in order.
pub open spec fn orders_on_trip(e: Seq<(Seq<char>, OrderView)>, trip_id: Seq<char>) -> Seq<OrderView>
    decreases e.len(),
{
    if e.len() == 0 {
        Seq::empty()
    } else {
        let rest = orders_on_trip(e.drop_last(), trip_id);
        if e.last().1.trip_id == trip_id { rest.push(e.last().1) } else { rest }
    }
}

/// Removing the entries of several keys, one after the other.
pub open spec fn remove_keys(e: Seq<(Seq<char>, OrderView)>, keys: Seq<Seq<char>>) -> Seq<(Seq<char>, OrderView)>
    decreases keys.len(),
{
    if keys.len() == 0 {
        e
    } else {
        remove_key(remove_keys(e, keys.drop_last()), keys.last())
    }
}

/// The trips that have started by time `now` are running; the others are as they were.
pub open spec fn running_at(e: Seq<(Seq<char>, TripView)>, now: i64) -> Seq<(Seq<char>, TripView)> {
    Seq::new(e.len(), |i: int| if now > e[i].1.start_time {
        (e[i].0, TripView { status: trip_status_name(TripStatus::Running), ..e[i].1 })
    } else {
        e[i]
    })
}

/// The ids of the trips that have started by time `now`, in order.
pub open spec fn started_ids(e: Seq<(Seq<char>, TripView)>, now: i64) -> Seq<Seq<char>>
    decreases e.len(),
{
    if e.len() == 0 {
        Seq::empty()
    } else {
        let rest = started_ids(e.drop_last(), now);
        if now > e.last().1.start_time { rest.push(e.last().0) } else { rest }
    }
}

/// Trips by id, orders by payer openid, and the openids of users who are in a trip.
pub struct Cache {
    trips: Vec<(String, Trip)>,
    orders: Vec<(String, Order)>,
    busy: Vec<String>,
}

impl View for Cache {
    type V = CacheView;

    closed spec fn view(&self) -> CacheView {
        CacheView {
            trips: self.trips@.map_values(|p: (String, Trip)| (p.0@, p.1@)),
            orders: self.orders@.map_values(|p: (String, Order)| (p.0@, p.1@)),
            busy: self.busy@.map_values(|s: String| s@),
        }
    }
}

impl Cache {
    #[verifier::type_invariant]
    closed spec fn well_formed(self) -> bool {
        &&& keys_unique(self@.trips)
        &&& keys_unique(self@.orders)
        &&& no_duplicates(self@.busy)
    }

    /// An empty cache.
    pub fn new() -> (res: Cache)
        ensures
            keys_unique(res@.trips),
            keys_unique(res@.orders),
            no_duplicates(res@.busy),
            res@.trips == Seq::<(Seq<char>, TripView)>::empty(),
            res@.orders == Seq::<(Seq<char>, OrderView)>::empty(),
            res@.busy == Seq::<Seq<char>>::empty(),
    {
        let res = Cache { trips: Vec::new(), orders: Vec::new(), busy: Vec::new() };
        assert(res@.trips =~= Seq::<(Seq<char>, TripView)>::empty());
        assert(res@.orders =~= Seq::<(Seq<char>, OrderView)>::empty());
        assert(res@.busy =~= Seq::<Seq<char>>::empty());
        res
    }

    fn put_trip(&mut self, id: String, t: Trip)
        ensures
            keys_unique(final(self)@.trips),
            keys_unique(final(self)@.orders),
            no_duplicates(final(self)@.busy),
            final(self)@.trips == upsert(old(self)@.trips, id@, t@),
            final(self)@.orders == old(self)@.orders,
            final(self)@.busy == old(self)@.busy,
    {
        proof { use_type_invariant(&*self); }
        let ghost e = self@.trips;
        proof { lemma_upsert_keeps_unique(e, id@, t@); }
        let mut trips: Vec<(String, Trip)> = Vec::new();
        std::mem::swap(&mut trips, &mut self.trips);
        assert(trips@.map_values(|p: (String, Trip)| (p.0@, p.1@)) == e);
        match find_key(&trips, id.as_str()) {
            Some(i) => {
                proof {
                    assert(keyed_view(trips@)[i as int].0 == e[i as int].0);
                    assert(keys_unique(keyed_view(trips@))) by {
                        assert forall|a: int, b: int| 0 <= a < b < keyed_view(trips@).len()
                            implies #[trigger] keyed_view(trips@)[a].0 != #[trigger] keyed_view(trips@)[b].0 by {
                            assert(e[a].0 != e[b].0);
                        }
                    }
                    assert(e[i as int].0 == id@);
                    assert(has_key(e, id@));
                    let j = index_of(e, id@);
                    if j != i as int {
                        if j < i as int { assert(e[j].0 != e[i as int].0); } else { assert(e[i as int].0 != e[j].0); }
                    }
                }
                trips.set(i, (id, t));
                assert(trips@.map_values(|p: (String, Trip)| (p.0@, p.1@)) =~= upsert(e, id@, t@));
                self.trips = trips;
            },
            None => {
                proof {
                    if has_key(e, id@) {
                        let j = index_of(e, id@);
                        assert(keyed_view(trips@)[j].0 == e[j].0);
                    }
                }
                trips.push((id, t));
                assert(trips@.map_values(|p: (String, Trip)| (p.0@, p.1@)) =~= upsert(e, id@, t@));
                self.trips = trips;
            },
        }
    }

    /// Remembers a stored trip under its id; a trip with no id is not remembered.
    pub fn add_trip(&mut self, t: Trip)
        ensures
            keys_unique(final(self)@.trips),
            keys_unique(final(self)@.orders),
            no_duplicates(final(self)@.busy),
            match opt_view(t._id) {
                Some(id) => final(self)@.trips == upsert(old(self)@.trips, id, t@),
                None => final(self)@.trips == old(self)@.trips,
            },
            final(self)@.orders == old(self)@.orders,
            final(self)@.busy == old(self)@.busy,
    {
        proof { use_type_invariant(&*self); }
        match &t._id {
            Some(id) => {
                let id = id.clone();
                self.put_trip(id, t);
            },
            None => {},
        }
    }

    /// Whether `openid` is busy.
    pub fn is_busy(&self, openid: &str) -> (res: bool)
        ensures
            res == self@.busy.contains(openid@),
    {
        let n = self.busy.len();
        for i in 0..n
            invariant
                n == self@.busy.len(),
                forall|j: int| 0 <= j < i ==> self@.busy[j] != openid@,
        {
            assert(self@.busy[i as int] == self.busy@[i as int]@);
            if text_eq(self.busy[i].as_str(), openid) {
                return true;
            }
        }
        false
    }

    /// Marks `openid` as busy.
    pub fn add_busy(&mut self, openid: String)
        ensures
            keys_unique(final(self)@.trips),
            keys_unique(final(self)@.orders),
            no_duplicates(final(self)@.busy),
            final(self)@.busy == (if old(self)@.busy.contains(openid@) { old(self)@.busy } else { old(self)@.busy.push(openid@) }),
            final(self)@.trips == old(self)@.trips,
            final(self)@.orders == old(self)@.orders,
    {
        proof { use_type_invariant(&*self); }
        if !self.is_busy(openid.as_str()) {
            let ghost b = self@.busy;
            let mut busy: Vec<String> = Vec::new();
            std::mem::swap(&mut busy, &mut self.busy);
            busy.push(openid);
            assert(busy@.map_values(|s: String| s@) =~= b.push(openid@));
            proof {
                assert forall|i: int, j: int| 0 <= i < j < b.push(openid@).len()
                    implies #[trigger] b.push(openid@)[i] != #[trigger] b.push(openid@)[j] by {
                    if j == b.len() {
                        assert(b[i] != openid@);
                    }
                }
            }
            self.busy = busy;
        }
    }

    /// Marks `openid` as no longer busy.
    pub fn not_busy(&mut self, openid: &str)
        ensures
            keys_unique(final(self)@.trips),
            keys_unique(final(self)@.orders),
            no_duplicates(final(self)@.busy),
            forall|x: Seq<char>| #[trigger] final(self)@.busy.contains(x) == (old(self)@.busy.contains(x) && x != openid@),
            final(self)@.trips == old(self)@.trips,
            final(self)@.orders == old(self)@.orders,
    {
        proof { use_type_invariant(&*self); }
        let ghost b = self@.busy;
        let n = self.busy.len();
        let mut i: usize = 0;
        while i < n
            invariant
                n == self@.busy.len(),
                b == self@.busy,
                b == old(self)@.busy,
                self@.trips == old(self)@.trips,
                self@.orders == old(self)@.orders,
                keys_unique(self@.trips),
                keys_unique(self@.orders),
                no_duplicates(b),
                i <= n,
                forall|j: int| 0 <= j < i ==> b[j] != openid@,
            decreases n - i,
        {
            assert(b[i as int] == self.busy@[i as int]@);
            if text_eq(self.busy[i].as_str(), openid) {
                let mut busy: Vec<String> = Vec::new();
                std::mem::swap(&mut busy, &mut self.busy);
                busy.remove(i);
                let ghost r = b.remove(i as int);
                assert(busy@.map_values(|s: String| s@) =~= r);
                proof {
                    assert forall|x: Seq<char>| #[trigger] r.contains(x) == (b.contains(x) && x != openid@) by {
                        if r.contains(x) {
                            let k = choose|k: int| 0 <= k < r.len() && r[k] == x;
                            let k2 = if k < i { k } else { k + 1 };
                            assert(r[k] == b[k2]);
                            if x == openid@ {
                                if k2 < i { assert(b[k2] != b[i as int]); } else { assert(b[i as int] != b[k2]); }
                            }
                        }
                        if b.contains(x) && x != openid@ {
                            let k = choose|k: int| 0 <= k < b.len() && b[k] == x;
                            assert(k != i);
                            let k2 = if k < i { k } else { k - 1 };
                            assert(r[k2] == b[k]);
                        }
                    }
                    assert forall|a: int, c: int| 0 <= a < c < r.len() implies #[trigger] r[a] != #[trigger] r[c] by {
                        let a2 = if a < i { a } else { a + 1 };
                        let c2 = if c < i { c } else { c + 1 };
                        assert(r[a] == b[a2]);
                        assert(r[c] == b[c2]);
                    }
                }
                self.busy = busy;
                return;
            }
            i = i + 1;
        }
        assert forall|x: Seq<char>| #[trigger] b.contains(x) implies x != openid@ by {
            let k = choose|k: int| 0 <= k < b.len() && b[k] == x;
        }
    }

    /// The trip stored under `id`.
    pub fn get_trip(&self, id: &str) -> (res: Option<Trip>)
        ensures
            match res {
                Some(t) => value_of(self@.trips, id@) == Some(t@),
                None => value_of(self@.trips, id@) is None,
            },
    {
        proof { use_type_invariant(self); }
        let ghost e = self@.trips;
        match find_key(&self.trips, id) {
            Some(i) => {
                proof {
                    assert(keys_unique(keyed_view(self.trips@))) by {
                        assert forall|a: int, b: int| 0 <= a < b < keyed_view(self.trips@).len()
                            implies #[trigger] keyed_view(self.trips@)[a].0 != #[trigger] keyed_view(self.trips@)[b].0 by {
                            assert(e[a].0 != e[b].0);
                        }
                    }
                    assert(e[i as int].0 == id@);
                    assert(has_key(e, id@));
                    let j = index_of(e, id@);
                    if j != i as int {
                        if j < i as int { assert(e[j].0 != e[i as int].0); } else { assert(e[i as int].0 != e[j].0); }
                    }
                }
                Some(self.trips[i].1.duplicate())
            },
            None => {
                proof {
                    if has_key(e, id@) {
                        let j = index_of(e, id@);
                        assert(keyed_view(self.trips@)[j].0 == e[j].0);
                    }
                }
                None
            },
        }
    }

    /// The trips in state `status`, in the order they were stored.
    pub fn trips_with_status(&self, status: &str) -> (res: Vec<Trip>)
        ensures
            res@.map_values(|t: Trip| t@) == trips_with_status_spec(self@.trips, status@),
    {
        let ghost e = self@.trips;
        let mut res: Vec<Trip> = Vec::new();
        let n = self.trips.len();
        for i in 0..n
            invariant
                n == e.len(),
                e == self@.trips,
                res@.map_values(|t: Trip| t@) == trips_with_status_spec(e.take(i as int), status@),
        {
            assert(e.take(i + 1).drop_last() =~= e.take(i as int));
            assert(e[i as int].1 == self.trips@[i as int].1@);
            if text_eq(self.trips[i].1.status.as_str(), status) {
                let t = self.trips[i].1.duplicate();
                res.push(t);
                assert(res@.map_values(|t: Trip| t@) =~= trips_with_status_spec(e.take(i as int), status@).push(e[i as int].1));
            }
        }
        assert(e.take(n as int) =~= e);
        res
    }

    /// The first stored trip offered by `openid`.
    pub fn trip_by_openid(&self, openid: &str) -> (res: Option<Trip>)
        ensures
            match res {
                Some(t) => trip_of_openid(self@.trips, openid@) == Some(t@),
                None => trip_of_openid(self@.trips, openid@) is None,
            },
    {
        let ghost e = self@.trips;
        let n = self.trips.len();
        let mut i: usize = 0;
        assert(e.skip(0) =~= e);
        while i < n
            invariant
                n == e.len(),
                e == self@.trips,
                i <= n,
                trip_of_openid(e, openid@) == trip_of_openid(e.skip(i as int), openid@),
            decreases n - i,
        {
            assert(e.skip(i as int)[0] == e[i as int]);
            assert(e[i as int].1 == self.trips@[i as int].1@);
            if text_eq(self.trips[i].1.openid.as_str(), openid) {
                return Some(self.trips[i].1.duplicate());
            }
            assert(e.skip(i as int).drop_first() =~= e.skip(i + 1));
            i = i + 1;
        }
        None
    }

    /// The orders on trip `trip_id`, in the order they were stored.
    pub fn orders_by_trip(&self, trip_id: &str) -> (res: Vec<Order>)
        ensures
            res@.map_values(|o: Order| o@) == orders_on_trip(self@.orders, trip_id@),
    {
        let ghost e = self@.orders;
        let mut res: Vec<Order> = Vec::new();
        let n = self.orders.len();
        for i in 0..n
            invariant
                n == e.len(),
                e == self@.orders,
                res@.map_values(|o: Order| o@) == orders_on_trip(e.take(i as int), trip_id@),
        {
            assert(e.take(i + 1).drop_last() =~= e.take(i as int));
            assert(e[i as int].1 == self.orders@[i as int].1@);
            if text_eq(self.orders[i].1.trip_id.as_str(), trip_id) {
                let o = self.orders[i].1.duplicate();
                res.push(o);
                assert(res@.map_values(|o: Order| o@) =~= orders_on_trip(e.take(i as int), trip_id@).push(e[i as int].1));
            }
        }
        assert(e.take(n as int) =~= e);
        res
    }

    /// The order paid by `openid`.
    pub fn order_by_openid(&self, openid: &str) -> (res: Option<Order>)
        ensures
            match res {
                Some(o) => value_of(self@.orders, openid@) == Some(o@),
                None => value_of(self@.orders, openid@) is None,
            },
    {
        proof { use_type_invariant(self); }
        let ghost e = self@.orders;
        match find_key(&self.orders, openid) {
            Some(i) => {
                proof {
                    assert(keys_unique(keyed_view(self.orders@))) by {
                        assert forall|a: int, b: int| 0 <= a < b < keyed_view(self.orders@).len()
                            implies #[trigger] keyed_view(self.orders@)[a].0 != #[trigger] keyed_view(self.orders@)[b].0 by {
                            assert(e[a].0 != e[b].0);
                        }
                    }
                    assert(e[i as int].0 == openid@);
                    assert(has_key(e, openid@));
                    let j = index_of(e, openid@);
                    if j != i as int {
                        if j < i as int { assert(e[j].0 != e[i as int].0); } else { assert(e[i as int].0 != e[j].0); }
                    }
                }
                Some(self.orders[i].1.duplicate())
            },
            None => {
                proof {
                    if has_key(e, openid@) {
                        let j = index_of(e, openid@);
                        assert(keyed_view(self.orders@)[j].0 == e[j].0);
                    }
                }
                None
            },
        }
    }

    /// Sets the free seats of the trip stored under `id`, if there is one.
    pub fn set_current_seats(&mut self, id: &str, count: u32)
        ensures
            keys_unique(final(self)@.trips),
            keys_unique(final(self)@.orders),
            no_duplicates(final(self)@.busy),
            final(self)@.trips == (if has_key(old(self)@.trips, id@) {
                old(self)@.trips.update(index_of(old(self)@.trips, id@),
                    (id@, TripView { current_seat: count, ..old(self)@.trips[index_of(old(self)@.trips, id@)].1 }))
            } else {
                old(self)@.trips
            }),
            final(self)@.orders == old(self)@.orders,
            final(self)@.busy == old(self)@.busy,
    {
        proof { use_type_invariant(&*self); }
        let ghost e = self@.trips;
        let mut trips: Vec<(String, Trip)> = Vec::new();
        std::mem::swap(&mut trips, &mut self.trips);
        assert(trips@.map_values(|p: (String, Trip)| (p.0@, p.1@)) == e);
        match find_key(&trips, id) {
            Some(i) => {
                proof {
                    assert(keys_unique(keyed_view(trips@))) by {
                        assert forall|a: int, b: int| 0 <= a < b < keyed_view(trips@).len()
                            implies #[trigger] keyed_view(trips@)[a].0 != #[trigger] keyed_view(trips@)[b].0 by {
                            assert(e[a].0 != e[b].0);
                        }
                    }
                    assert(e[i as int].0 == id@);
                    assert(has_key(e, id@));
                }
                let mut t = trips[i].1.duplicate();
                t.current_seat = count;
                let key = trips[i].0.clone();
                trips.set(i, (key, t));
                let ghost r = trips@.map_values(|p: (String, Trip)| (p.0@, p.1@));
                assert(r =~= e.update(i as int, (id@, TripView { current_seat: count, ..e[i as int].1 })));
                proof {
                    assert forall|a: int, b: int| 0 <= a < b < r.len() implies #[trigger] r[a].0 != #[trigger] r[b].0 by {
                        assert(e[a].0 != e[b].0);
                    }
                }
                self.trips = trips;
            },
            None => {
                proof {
                    if has_key(e, id@) {
                        let j = index_of(e, id@);
                        assert(keyed_view(trips@)[j].0 == e[j].0);
                    }
                }
                self.trips = trips;
            },
        }
    }

    /// Sets the state of the trip stored under `id`, if there is one.
    pub fn set_trip_status(&mut self, id: &str, status: TripStatus)
        ensures
            keys_unique(final(self)@.trips),
            keys_unique(final(self)@.orders),
            no_duplicates(final(self)@.busy),
            final(self)@.trips == (if has_key(old(self)@.trips, id@) {
                old(self)@.trips.update(index_of(old(self)@.trips, id@),
                    (id@, TripView { status: trip_status_name(status), ..old(self)@.trips[index_of(old(self)@.trips, id@)].1 }))
            } else {
                old(self)@.trips
            }),
            final(self)@.orders == old(self)@.orders,
            final(self)@.busy == old(self)@.busy,
    {
        proof { use_type_invariant(&*self); }
        let ghost e = self@.trips;
        let mut trips: Vec<(String, Trip)> = Vec::new();
        std::mem::swap(&mut trips, &mut self.trips);
        assert(trips@.map_values(|p: (String, Trip)| (p.0@, p.1@)) == e);
        match find_key(&trips, id) {
            Some(i) => {
                proof {
                    assert(keys_unique(keyed_view(trips@))) by {
                        assert forall|a: int, b: int| 0 <= a < b < keyed_view(trips@).len()
                            implies #[trigger] keyed_view(trips@)[a].0 != #[trigger] keyed_view(trips@)[b].0 by {
                            assert(e[a].0 != e[b].0);
                        }
                    }
                    assert(e[i as int].0 == id@);
                    assert(has_key(e, id@));
                }
                let mut t = trips[i].1.duplicate();
                t.set_status(status);
                let key = trips[i].0.clone();
                trips.set(i, (key, t));
                let ghost r = trips@.map_values(|p: (String, Trip)| (p.0@, p.1@));
                assert(r =~= e.update(i as int, (id@, TripView { status: trip_status_name(status), ..e[i as int].1 })));
                proof {
                    assert forall|a: int, b: int| 0 <= a < b < r.len() implies #[trigger] r[a].0 != #[trigger] r[b].0 by {
                        assert(e[a].0 != e[b].0);
                    }
                }
                self.trips = trips;
            },
            None => {
                proof {
                    if has_key(e, id@) {
                        let j = index_of(e, id@);
                        assert(keyed_view(trips@)[j].0 == e[j].0);
                    }
                }
                self.trips = trips;
            },
        }
    }

    /// Sets the state of the order paid by `openid`, if there is one.
    pub fn set_order_status(&mut self, openid: &str, status: OrderStatus)
        ensures
            keys_unique(final(self)@.trips),
            keys_unique(final(self)@.orders),
            no_duplicates(final(self)@.busy),
            final(self)@.orders == (if has_key(old(self)@.orders, openid@) {
                old(self)@.orders.update(index_of(old(self)@.orders, openid@),
                    (openid@, OrderView { status: status, ..old(self)@.orders[index_of(old(self)@.orders, openid@)].1 }))
            } else {
                old(self)@.orders
            }),
            final(self)@.trips == old(self)@.trips,
            final(self)@.busy == old(self)@.busy,
    {
        proof { use_type_invariant(&*self); }
        let ghost e = self@.orders;
        let mut orders: Vec<(String, Order)> = Vec::new();
        std::mem::swap(&mut orders, &mut self.orders);
        assert(orders@.map_values(|p: (String, Order)| (p.0@, p.1@)) == e);
        match find_key(&orders, openid) {
            Some(i) => {
                proof {
                    assert(keys_unique(keyed_view(orders@))) by {
                        assert forall|a: int, b: int| 0 <= a < b < keyed_view(orders@).len()
                            implies #[trigger] keyed_view(orders@)[a].0 != #[trigger] keyed_view(orders@)[b].0 by {
                            assert(e[a].0 != e[b].0);
                        }
                    }
                    assert(e[i as int].0 == openid@);
                    assert(has_key(e, openid@));
                }
                let mut o = orders[i].1.duplicate();
                o.set_status(status);
                let key = orders[i].0.clone();
                orders.set(i, (key, o));
                let ghost r = orders@.map_values(|p: (String, Order)| (p.0@, p.1@));
                assert(r =~= e.update(i as int, (openid@, OrderView { status: status, ..e[i as int].1 })));
                proof {
                    assert forall|a: int, b: int| 0 <= a < b < r.len() implies #[trigger] r[a].0 != #[trigger] r[b].0 by {
                        assert(e[a].0 != e[b].0);
                    }
                }
                self.orders = orders;
            },
            None => {
                proof {
                    if has_key(e, openid@) {
                        let j = index_of(e, openid@);
                        assert(keyed_view(orders@)[j].0 == e[j].0);
                    }
                }
                self.orders = orders;
            },
        }
    }

    /// Remembers an order under its payer's openid.
    pub fn add_order(&mut self, o: Order)
        ensures
            keys_unique(final(self)@.trips),
            keys_unique(final(self)@.orders),
            no_duplicates(final(self)@.busy),
            final(self)@.orders == upsert(old(self)@.orders, o.openid@, o@),
            final(self)@.trips == old(self)@.trips,
            final(self)@.busy == old(self)@.busy,
    {
        proof { use_type_invariant(&*self); }
        let ghost e = self@.orders;
        let id = o.openid.clone();
        proof { lemma_upsert_keeps_unique(e, id@, o@); }
        let mut orders: Vec<(String, Order)> = Vec::new();
        std::mem::swap(&mut orders, &mut self.orders);
        assert(orders@.map_values(|p: (String, Order)| (p.0@, p.1@)) == e);
        match find_key(&orders, id.as_str()) {
            Some(i) => {
                proof {
                    assert(keys_unique(keyed_view(orders@))) by {
                        assert forall|a: int, b: int| 0 <= a < b < keyed_view(orders@).len()
                            implies #[trigger] keyed_view(orders@)[a].0 != #[trigger] keyed_view(orders@)[b].0 by {
                            assert(e[a].0 != e[b].0);
                        }
                    }
                    assert(e[i as int].0 == id@);
                    assert(has_key(e, id@));
                    let j = index_of(e, id@);
                    if j != i as int {
                        if j < i as int { assert(e[j].0 != e[i as int].0); } else { assert(e[i as int].0 != e[j].0); }
                    }
                }
                orders.set(i, (id, o));
                assert(orders@.map_values(|p: (String, Order)| (p.0@, p.1@)) =~= upsert(e, o.openid@, o@));
                self.orders = orders;
            },
            None => {
                proof {
                    if has_key(e, id@) {
                        let j = index_of(e, id@);
                        assert(keyed_view(orders@)[j].0 == e[j].0);
                    }
                }
                orders.push((id, o));
                assert(orders@.map_values(|p: (String, Order)| (p.0@, p.1@)) =~= upsert(e, o.openid@, o@));
                self.orders = orders;
            },
        }
    }

    /// Forgets the trip stored under `id`.
    pub fn remove_trip(&mut self, id: &str)
        ensures
            keys_unique(final(self)@.trips),
            keys_unique(final(self)@.orders),
            no_duplicates(final(self)@.busy),
            final(self)@.trips == remove_key(old(self)@.trips, id@),
            final(self)@.orders == old(self)@.orders,
            final(self)@.busy == old(self)@.busy,
    {
        proof { use_type_invariant(&*self); }
        let ghost e = self@.trips;
        let mut trips: Vec<(String, Trip)> = Vec::new();
        std::mem::swap(&mut trips, &mut self.trips);
        assert(trips@.map_values(|p: (String, Trip)| (p.0@, p.1@)) == e);
        match find_key(&trips, id) {
            Some(i) => {
                proof {
                    assert(keys_unique(keyed_view(trips@))) by {
                        assert forall|a: int, b: int| 0 <= a < b < keyed_view(trips@).len()
                            implies #[trigger] keyed_view(trips@)[a].0 != #[trigger] keyed_view(trips@)[b].0 by {
                            assert(e[a].0 != e[b].0);
                        }
                    }
                    assert(e[i as int].0 == id@);
                    assert(has_key(e, id@));
                    let j = index_of(e, id@);
                    if j != i as int {
                        if j < i as int { assert(e[j].0 != e[i as int].0); } else { assert(e[i as int].0 != e[j].0); }
                    }
                    lemma_remove_keeps_unique(e, i as int);
                }
                trips.remove(i);
                assert(trips@.map_values(|p: (String, Trip)| (p.0@, p.1@)) =~= remove_key(e, id@));
                self.trips = trips;
            },
            None => {
                proof {
                    if has_key(e, id@) {
                        let j = index_of(e, id@);
                        assert(keyed_view(trips@)[j].0 == e[j].0);
                    }
                }
                self.trips = trips;
            },
        }
    }

    fn remove_order(&mut self, openid: &str)
        ensures
            keys_unique(final(self)@.trips),
            keys_unique(final(self)@.orders),
            no_duplicates(final(self)@.busy),
            final(self)@.orders == remove_key(old(self)@.orders, openid@),
            final(self)@.trips == old(self)@.trips,
            final(self)@.busy == old(self)@.busy,
    {
        proof { use_type_invariant(&*self); }
        let ghost e = self@.orders;
        let mut orders: Vec<(String, Order)> = Vec::new();
        std::mem::swap(&mut orders, &mut self.orders);
        assert(orders@.map_values(|p: (String, Order)| (p.0@, p.1@)) == e);
        match find_key(&orders, openid) {
            Some(i) => {
                proof {
                    assert(keys_unique(keyed_view(orders@))) by {
                        assert forall|a: int, b: int| 0 <= a < b < keyed_view(orders@).len()
                            implies #[trigger] keyed_view(orders@)[a].0 != #[trigger] keyed_view(orders@)[b].0 by {
                            assert(e[a].0 != e[b].0);
                        }
                    }
                    assert(e[i as int].0 == openid@);
                    assert(has_key(e, openid@));
                    let j = index_of(e, openid@);
                    if j != i as int {
                        if j < i as int { assert(e[j].0 != e[i as int].0); } else { assert(e[i as int].0 != e[j].0); }
                    }
                    lemma_remove_keeps_unique(e, i as int);
                }
                orders.remove(i);
                assert(orders@.map_values(|p: (String, Order)| (p.0@, p.1@)) =~= remove_key(e, openid@));
                self.orders = orders;
            },
            None => {
                proof {
                    if has_key(e, openid@) {
                        let j = index_of(e, openid@);
                        assert(keyed_view(orders@)[j].0 == e[j].0);
                    }
                }
                self.orders = orders;
            },
        }
    }

    /// Forgets the orders paid by each of `openids`.
    pub fn remove_orders(&mut self, openids: &Vec<String>)
        ensures
            keys_unique(final(self)@.trips),
            keys_unique(final(self)@.orders),
            no_duplicates(final(self)@.busy),
            final(self)@.orders == remove_keys(old(self)@.orders, openids@.map_values(|s: String| s@)),
            final(self)@.trips == old(self)@.trips,
            final(self)@.busy == old(self)@.busy,
    {
        proof { use_type_invariant(&*self); }
        let ghost ks = openids@.map_values(|s: String| s@);
        let n = openids.len();
        for i in 0..n
            invariant
                n == ks.len(),
                ks == openids@.map_values(|s: String| s@),
                self@.orders == remove_keys(old(self)@.orders, ks.take(i as int)),
                self@.trips == old(self)@.trips,
                self@.busy == old(self)@.busy,
                keys_unique(self@.trips),
                keys_unique(self@.orders),
                no_duplicates(self@.busy),
        {
            self.remove_order(openids[i].as_str());
            assert(ks.take(i + 1).drop_last() =~= ks.take(i as int));
        }
        assert(ks.take(n as int) =~= ks);
    }

    /// Marks every stored trip that has started by time `now` as running, and gives their ids.
    pub fn update_trips_running(&mut self, now: i64) -> (res: Vec<String>)
        ensures
            keys_unique(final(self)@.trips),
            keys_unique(final(self)@.orders),
            no_duplicates(final(self)@.busy),
            final(self)@.trips == running_at(old(self)@.trips, now),
            res@.map_values(|s: String| s@) == started_ids(old(self)@.trips, now),
            final(self)@.orders == old(self)@.orders,
            final(self)@.busy == old(self)@.busy,
    {
        proof { use_type_invariant(&*self); }
        let ghost e = self@.trips;
        let mut trips: Vec<(String, Trip)> = Vec::new();
        std::mem::swap(&mut trips, &mut self.trips);
        let mut ids: Vec<String> = Vec::new();
        let n = trips.len();
        for i in 0..n
            invariant
                n == e.len(),
                n == trips@.len(),
                forall|j: int| 0 <= j < i ==> (#[trigger] trips@[j].0@, trips@[j].1@) == running_at(e, now)[j],
                forall|j: int| i <= j < n ==> (#[trigger] trips@[j].0@, trips@[j].1@) == e[j],
                ids@.map_values(|s: String| s@) == started_ids(e.take(i as int), now),
        {
            assert(e.take(i + 1).drop_last() =~= e.take(i as int));
            assert(e[i as int] == (trips@[i as int].0@, trips@[i as int].1@));
            if now > trips[i].1.start_time {
                let mut t = trips[i].1.duplicate();
                t.set_status(TripStatus::Running);
                let key = trips[i].0.clone();
                ids.push(trips[i].0.clone());
                trips.set(i, (key, t));
                assert(ids@.map_values(|s: String| s@) =~= started_ids(e.take(i as int), now).push(e[i as int].0));
            }
        }
        assert(e.take(n as int) =~= e);
        let ghost r = trips@.map_values(|p: (String, Trip)| (p.0@, p.1@));
        assert(r =~= running_at(e, now));
        proof {
            assert forall|a: int, b: int| 0 <= a < b < r.len() implies #[trigger] r[a].0 != #[trigger] r[b].0 by {
                assert(e[a].0 != e[b].0);
            }
        }
        self.trips = trips;
        ids
    }
}


/// A trip remembered under an id is what a lookup of that id gives back, and every other id
/// keeps the trip it had.
pub proof fn lemma_remembered_trip_found(trips: Seq<(Seq<char>, TripView)>, id: Seq<char>, t: TripView, other: Seq<char>)
    requires
        keys_unique(trips),
    ensures
        value_of(upsert(trips, id, t), id) == Some(t),
        other != id ==> value_of(upsert(trips, id, t), other) == value_of(trips, other),
{
    crate::keyed::lemma_upsert_value(trips, id, t, other);
}

/// An order cached for a payer is what a lookup of that payer gives back, and every other payer
/// keeps the order they had.
pub proof fn lemma_cached_order_found(orders: Seq<(Seq<char>, OrderView)>, openid: Seq<char>, o: OrderView, other: Seq<char>)
    requires
        keys_unique(orders),
    ensures
        value_of(upsert(orders, openid, o), openid) == Some(o),
        other != openid ==> value_of(upsert(orders, openid, o), other) == value_of(orders, other),
{
    crate::keyed::lemma_upsert_value(orders, openid, o, other);
}

/// A forgotten trip is gone, and every other id keeps the trip it had.
pub proof fn lemma_forgotten_trip_gone(trips: Seq<(Seq<char>, TripView)>, id: Seq<char>, other: Seq<char>)
    requires
        keys_unique(trips),
    ensures
        value_of(remove_key(trips, id), id) is None,
        other != id ==> value_of(remove_key(trips, id), other) == value_of(trips, other),
{
    crate::keyed::lemma_remove_value(trips, id, other);
}

/// Marking a user busy makes them busy, leaves every other user as they were, and lists no user
/// twice.
pub proof fn lemma_mark_busy(busy: Seq<Seq<char>>, openid: Seq<char>, other: Seq<char>)
    requires
        no_duplicates(busy),
    ensures
        ({
            let b = if busy.contains(openid) { busy } else { busy.push(openid) };
            &&& b.contains(openid)
            &&& other != openid ==> b.contains(other) == busy.contains(other)
            &&& no_duplicates(b)
        }),
{
    if !busy.contains(openid) {
        let b = busy.push(openid);
        assert(b[busy.len() as int] == openid);
        if other != openid && b.contains(other) {
            let k = choose|k: int| 0 <= k < b.len() && b[k] == other;
            assert(busy[k] == other);
        }
        if busy.contains(other) {
            let k = choose|k: int| 0 <= k < busy.len() && busy[k] == other;
            assert(b[k] == other);
        }
        assert forall|i: int, j: int| 0 <= i < j < b.len() implies #[trigger] b[i] != #[trigger] b[j] by {
            if j == busy.len() {
                assert(busy[i] != openid);
            } else {
                assert(busy[i] != busy[j]);
            }
        }
    }
}

/// Marking the trips started by one time and then those started by a later time is marking those
/// started by the later time once: a running trip stays running, and the ids stay in place.
pub proof fn lemma_running_at_later(trips: Seq<(Seq<char>, TripView)>, earlier: i64, later: i64)
    requires
        earlier <= later,
    ensures
        running_at(running_at(trips, earlier), later) == running_at(trips, later),
        running_at(trips, later).len() == trips.len(),
        forall|i: int| 0 <= i < trips.len() ==> (#[trigger] running_at(trips, later)[i]).0 == trips[i].0,
{
    assert(running_at(running_at(trips, earlier), later) =~= running_at(trips, later));
}

/// Marking the trips started by a time leaves every trip departing at or after that time as it
/// was, and marks every trip departing before it as running; no trip moves.
pub proof fn lemma_running_at_splits_by_start(trips: Seq<(Seq<char>, TripView)>, now: i64, i: int)
    requires
        0 <= i < trips.len(),
    ensures
        trips[i].1.start_time >= now ==> running_at(trips, now)[i] == trips[i],
        trips[i].1.start_time < now ==> running_at(trips, now)[i].1.status == trip_status_name(TripStatus::Running)
            && running_at(trips, now)[i].0 == trips[i].0,
{
}

} // verus!
