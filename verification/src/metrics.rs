//! Metrics module: counters, gauges and histograms by name.
//!
//! Gauges and histograms hold floating-point numbers by their 64 bits; the
//! statistics of a histogram are computed by the embedding program from
//! the observations kept here.

use vstd::prelude::*;
use crate::error::{HostError, HostErrorKind};
use crate::text::{copy_str, str_eq};
use crate::value::{arg, arg_at, arg_int, arg_str, int_arg, text_arg, views_of, Value, ValueView};

verus! {

/// The position of the first of `names` equal to `name` (the length where
/// there is none).
pub open spec fn slot_of(names: Seq<Seq<char>>, name: Seq<char>) -> int
    decreases names.len(),
{
    if names.len() == 0 {
        0
    } else if names[0] == name {
        0
    } else {
        1 + slot_of(names.drop_first(), name)
    }
}

/// `slot_of` finds the first position with the name, if there is one.
pub proof fn lemma_slot_of(names: Seq<Seq<char>>, name: Seq<char>)
    ensures
        0 <= slot_of(names, name) <= names.len(),
        slot_of(names, name) < names.len() ==> names[slot_of(names, name)] == name,
        forall|i: int| 0 <= i < slot_of(names, name) ==> names[i] != name,
    decreases names.len(),
{
    if names.len() > 0 && names[0] != name {
        let rest = names.drop_first();
        lemma_slot_of(rest, name);
        assert forall|i: int| 0 <= i < slot_of(names, name) implies names[i] != name by {
            if i > 0 {
                assert(rest[i - 1] == names[i]);
            }
        }
    }
}

/// A histogram: the observations in the order in which they came.
#[derive(Debug)]
pub struct Histogram {
    values: Vec<u64>,
}

impl Histogram {
    /// The observations, each by its 64 bits.
    pub closed spec fn observations(&self) -> Seq<u64> {
        self.values@
    }

    /// A histogram without observations.
    pub fn new() -> (r: Self)
        ensures
            r.observations() == Seq::<u64>::empty(),
    {
        Histogram { values: Vec::new() }
    }

    /// Adds an observation.
    pub fn observe(&mut self, bits: u64)
        ensures
            final(self).observations() == old(self).observations().push(bits),
    {
        self.values.push(bits);
    }

    /// The number of observations.
    pub fn count(&self) -> (r: usize)
        ensures
            r == self.observations().len(),
    {
        self.values.len()
    }

    /// The observations.
    pub fn values(&self) -> (r: &Vec<u64>)
        ensures
            r@ == self.observations(),
    {
        &self.values
    }
}

impl Default for Histogram {
    fn default() -> (r: Self)
        ensures
            r.observations() == Seq::<u64>::empty(),
    {
        Histogram::new()
    }
}

/// A registry of metrics.
#[derive(Debug)]
pub struct MetricsRegistry {
    counters: Vec<(String, u64)>,
    gauges: Vec<(String, u64)>,
    histograms: Vec<(String, Histogram)>,
}

/// The texts of a vector of strings.
pub open spec fn name_texts(names: Seq<String>) -> Seq<Seq<char>> {
    names.map_values(|n: String| n@)
}

/// The names of a vector of named numbers.
pub open spec fn number_names(entries: Seq<(String, u64)>) -> Seq<Seq<char>> {
    entries.map_values(|e: (String, u64)| e.0@)
}

/// The names of a vector of named histograms.
pub open spec fn histogram_names_of(entries: Seq<(String, Histogram)>) -> Seq<Seq<char>> {
    entries.map_values(|e: (String, Histogram)| e.0@)
}

fn find_number(entries: &Vec<(String, u64)>, name: &str) -> (r: usize)
    ensures
        r == slot_of(number_names(entries@), name@),
        r <= entries@.len(),
{
    let mut i: usize = 0;
    let ghost names = number_names(entries@);
    proof {
        lemma_slot_of(names, name@);
    }
    while i < entries.len()
        invariant
            i <= entries.len(),
            names == number_names(entries@),
            forall|k: int| 0 <= k < i ==> names[k] != name@,
            0 <= slot_of(names, name@) <= names.len(),
            slot_of(names, name@) < names.len() ==> names[slot_of(names, name@)] == name@,
            forall|k: int| 0 <= k < slot_of(names, name@) ==> names[k] != name@,
        decreases entries.len() - i,
    {
        if str_eq(entries[i].0.as_str(), name) {
            assert(names[i as int] == name@);
            return i;
        }
        i += 1;
    }
    i
}

fn find_histogram(entries: &Vec<(String, Histogram)>, name: &str) -> (r: usize)
    ensures
        r == slot_of(histogram_names_of(entries@), name@),
        r <= entries@.len(),
{
    let mut i: usize = 0;
    let ghost names = histogram_names_of(entries@);
    proof {
        lemma_slot_of(names, name@);
    }
    while i < entries.len()
        invariant
            i <= entries.len(),
            names == histogram_names_of(entries@),
            forall|k: int| 0 <= k < i ==> names[k] != name@,
            0 <= slot_of(names, name@) <= names.len(),
            slot_of(names, name@) < names.len() ==> names[slot_of(names, name@)] == name@,
            forall|k: int| 0 <= k < slot_of(names, name@) ==> names[k] != name@,
        decreases entries.len() - i,
    {
        if str_eq(entries[i].0.as_str(), name) {
            assert(names[i as int] == name@);
            return i;
        }
        i += 1;
    }
    i
}

impl MetricsRegistry {
    /// The names of the counters, in the order of their first use.
    pub closed spec fn counter_names(&self) -> Seq<Seq<char>> {
        number_names(self.counters@)
    }

    /// The values of the counters, in the order of their names.
    pub closed spec fn counter_values(&self) -> Seq<u64> {
        self.counters@.map_values(|e: (String, u64)| e.1)
    }

    /// The names of the gauges, in the order of their first use.
    pub closed spec fn gauge_names(&self) -> Seq<Seq<char>> {
        number_names(self.gauges@)
    }

    /// The values of the gauges, in the order of their names.
    pub closed spec fn gauge_values(&self) -> Seq<u64> {
        self.gauges@.map_values(|e: (String, u64)| e.1)
    }

    /// The names of the histograms, in the order of their first use.
    pub closed spec fn histogram_names(&self) -> Seq<Seq<char>> {
        histogram_names_of(self.histograms@)
    }

    /// The observations of the histograms, in the order of their names.
    pub closed spec fn histogram_observations(&self) -> Seq<Seq<u64>> {
        self.histograms@.map_values(|e: (String, Histogram)| e.1.observations())
    }

    /// The value of the counter `name`; zero where there is none.
    pub open spec fn counter(&self, name: Seq<char>) -> u64 {
        let at = slot_of(self.counter_names(), name);
        if 0 <= at < self.counter_values().len() {
            self.counter_values()[at]
        } else {
            0
        }
    }

    /// The bits of the gauge `name`; zero where there is none.
    pub open spec fn gauge(&self, name: Seq<char>) -> u64 {
        let at = slot_of(self.gauge_names(), name);
        if 0 <= at < self.gauge_values().len() {
            self.gauge_values()[at]
        } else {
            0
        }
    }

    /// The observations of the histogram `name`, where there is one.
    pub open spec fn histogram(&self, name: Seq<char>) -> Option<Seq<u64>> {
        let at = slot_of(self.histogram_names(), name);
        if 0 <= at < self.histogram_observations().len() {
            Some(self.histogram_observations()[at])
        } else {
            None
        }
    }

    /// Whether the registry holds no metric.
    pub open spec fn is_empty(&self) -> bool {
        &&& self.counter_names() == Seq::<Seq<char>>::empty()
        &&& self.counter_values() == Seq::<u64>::empty()
        &&& self.gauge_names() == Seq::<Seq<char>>::empty()
        &&& self.gauge_values() == Seq::<u64>::empty()
        &&& self.histogram_names() == Seq::<Seq<char>>::empty()
        &&& self.histogram_observations() == Seq::<Seq<u64>>::empty()
    }

    /// An empty registry.
    pub fn new() -> (r: Self)
        ensures
            r.is_empty(),
    {
        let r = MetricsRegistry {
            counters: Vec::new(),
            gauges: Vec::new(),
            histograms: Vec::new(),
        };
        assert(r.counter_names() =~= Seq::<Seq<char>>::empty());
        assert(r.counter_values() =~= Seq::<u64>::empty());
        assert(r.gauge_names() =~= Seq::<Seq<char>>::empty());
        assert(r.gauge_values() =~= Seq::<u64>::empty());
        assert(r.histogram_names() =~= Seq::<Seq<char>>::empty());
        assert(r.histogram_observations() =~= Seq::<Seq<u64>>::empty());
        r
    }

    /// Adds `value` to the counter `name`, which starts at zero; the sum
    /// wraps around at 64 bits.
    pub fn counter_inc(&mut self, name: &str, value: u64)
        ensures
            final(self).counter(name@) == old(self).counter(name@).wrapping_add(value),
            forall|other: Seq<char>|
                other != name@ ==> final(self).counter(other) == old(self).counter(other),
            final(self).gauge_names() == old(self).gauge_names(),
            final(self).gauge_values() == old(self).gauge_values(),
            final(self).histogram_names() == old(self).histogram_names(),
            final(self).histogram_observations() == old(self).histogram_observations(),
    {
        let at = find_number(&self.counters, name);
        let ghost names = self.counter_names();
        let ghost values = self.counter_values();
        proof {
            lemma_slot_of(names, name@);
        }
        if at < self.counters.len() {
            let sum = self.counters[at].1.wrapping_add(value);
            self.counters.set(at, (copy_str(name), sum));
            proof {
                assert(self.counter_names() =~= names);
                assert(self.counter_values() =~= values.update(at as int, sum));
                assert forall|other: Seq<char>| other != name@ implies self.counter(other) == old(
                    self,
                ).counter(other) by {
                    lemma_slot_of(names, other);
                }
            }
        } else {
            self.counters.push((copy_str(name), value));
            proof {
                assert(self.counter_names() =~= names.push(name@));
                assert(self.counter_values() =~= values.push(value));
                lemma_slot_push(names, name@, name@);
                assert forall|other: Seq<char>| other != name@ implies self.counter(other) == old(
                    self,
                ).counter(other) by {
                    lemma_slot_push(names, name@, other);
                    lemma_slot_of(names, other);
                }
                assert(0u64.wrapping_add(value) == value);
            }
        }
    }

    /// The value of the counter `name`.
    pub fn counter_get(&self, name: &str) -> (r: u64)
        ensures
            r == self.counter(name@),
    {
        let at = find_number(&self.counters, name);
        if at < self.counters.len() {
            self.counters[at].1
        } else {
            0
        }
    }

    /// Sets the gauge `name` to the number with the given bits.
    pub fn gauge_set(&mut self, name: &str, bits: u64)
        ensures
            final(self).gauge(name@) == bits,
            forall|other: Seq<char>|
                other != name@ ==> final(self).gauge(other) == old(self).gauge(other),
            final(self).counter_names() == old(self).counter_names(),
            final(self).counter_values() == old(self).counter_values(),
            final(self).histogram_names() == old(self).histogram_names(),
            final(self).histogram_observations() == old(self).histogram_observations(),
    {
        let at = find_number(&self.gauges, name);
        let ghost names = self.gauge_names();
        let ghost values = self.gauge_values();
        proof {
            lemma_slot_of(names, name@);
        }
        if at < self.gauges.len() {
            self.gauges.set(at, (copy_str(name), bits));
            proof {
                assert(self.gauge_names() =~= names);
                assert(self.gauge_values() =~= values.update(at as int, bits));
                assert forall|other: Seq<char>| other != name@ implies self.gauge(other) == old(
                    self,
                ).gauge(other) by {
                    lemma_slot_of(names, other);
                }
            }
        } else {
            self.gauges.push((copy_str(name), bits));
            proof {
                assert(self.gauge_names() =~= names.push(name@));
                assert(self.gauge_values() =~= values.push(bits));
                lemma_slot_push(names, name@, name@);
                assert forall|other: Seq<char>| other != name@ implies self.gauge(other) == old(
                    self,
                ).gauge(other) by {
                    lemma_slot_push(names, name@, other);
                    lemma_slot_of(names, other);
                }
            }
        }
    }

    /// The bits of the gauge `name`; zero, the bits of the number zero,
    /// where there is none.
    pub fn gauge_get(&self, name: &str) -> (r: u64)
        ensures
            r == self.gauge(name@),
    {
        let at = find_number(&self.gauges, name);
        if at < self.gauges.len() {
            self.gauges[at].1
        } else {
            0
        }
    }

    /// Adds the observation with the given bits to the histogram `name`,
    /// which starts empty.
    pub fn histogram_observe(&mut self, name: &str, bits: u64)
        ensures
            final(self).histogram(name@) == Some(
                match old(self).histogram(name@) {
                    Some(seen) => seen.push(bits),
                    None => seq![bits],
                },
            ),
            forall|other: Seq<char>|
                other != name@ ==> final(self).histogram(other) == old(self).histogram(other),
            final(self).counter_names() == old(self).counter_names(),
            final(self).counter_values() == old(self).counter_values(),
            final(self).gauge_names() == old(self).gauge_names(),
            final(self).gauge_values() == old(self).gauge_values(),
    {
        let at = find_histogram(&self.histograms, name);
        let ghost names = self.histogram_names();
        let ghost seen = self.histogram_observations();
        proof {
            lemma_slot_of(names, name@);
        }
        if at < self.histograms.len() {
            let slot = &mut self.histograms[at];
            slot.1.observe(bits);
            proof {
                assert(self.histogram_names() =~= names);
                assert(self.histogram_observations() =~= seen.update(
                    at as int,
                    seen[at as int].push(bits),
                ));
                assert forall|other: Seq<char>| other != name@ implies self.histogram(other)
                    == old(self).histogram(other) by {
                    lemma_slot_of(names, other);
                }
            }
        } else {
            let mut fresh = Histogram::new();
            fresh.observe(bits);
            self.histograms.push((copy_str(name), fresh));
            proof {
                assert(self.histogram_names() =~= names.push(name@));
                assert(self.histogram_observations() =~= seen.push(seq![bits]));
                lemma_slot_push(names, name@, name@);
                assert forall|other: Seq<char>| other != name@ implies self.histogram(other)
                    == old(self).histogram(other) by {
                    lemma_slot_push(names, name@, other);
                    lemma_slot_of(names, other);
                }
            }
        }
    }

    /// The number of observations of the histogram `name`, where there is
    /// one.
    pub fn histogram_count(&self, name: &str) -> (r: Option<u64>)
        ensures
            r == match self.histogram(name@) {
                Some(seen) => Some(seen.len() as u64),
                None => None,
            },
    {
        let at = find_histogram(&self.histograms, name);
        if at < self.histograms.len() {
            Some(self.histograms[at].1.count() as u64)
        } else {
            None
        }
    }

    /// The observations of the histogram `name`, where there is one.
    pub fn histogram_values(&self, name: &str) -> (r: Option<&Vec<u64>>)
        ensures
            r is Some <==> self.histogram(name@) is Some,
            r matches Some(v) ==> self.histogram(name@) == Some(v@),
    {
        let at = find_histogram(&self.histograms, name);
        if at < self.histograms.len() {
            Some(self.histograms[at].1.values())
        } else {
            None
        }
    }

    /// The names of all metrics: the counters, then the gauges, then the
    /// histograms.
    pub fn names(&self) -> (r: Vec<String>)
        ensures
            name_texts(r@) == self.counter_names() + self.gauge_names() + self.histogram_names(),
    {
        let mut out: Vec<String> = Vec::new();
        let mut i: usize = 0;
        assert(name_texts(out@) =~= Seq::<Seq<char>>::empty());
        while i < self.counters.len()
            invariant
                i <= self.counters.len(),
                name_texts(out@) == self.counter_names().take(i as int),
            decreases self.counters.len() - i,
        {
            let ghost before = out@;
            out.push(self.counters[i].0.clone());
            assert(name_texts(out@) =~= name_texts(before).push(self.counter_names()[i as int]));
            assert(name_texts(out@) =~= self.counter_names().take(i + 1));
            i += 1;
        }
        assert(self.counter_names().take(self.counters@.len() as int) =~= self.counter_names());
        let mut j: usize = 0;
        while j < self.gauges.len()
            invariant
                j <= self.gauges.len(),
                name_texts(out@) == self.counter_names() + self.gauge_names().take(j as int),
            decreases self.gauges.len() - j,
        {
            let ghost before = out@;
            out.push(self.gauges[j].0.clone());
            assert(name_texts(out@) =~= name_texts(before).push(self.gauge_names()[j as int]));
            assert(name_texts(out@) =~= self.counter_names() + self.gauge_names().take(j + 1));
            j += 1;
        }
        assert(self.gauge_names().take(self.gauges@.len() as int) =~= self.gauge_names());
        let mut k: usize = 0;
        while k < self.histograms.len()
            invariant
                k <= self.histograms.len(),
                name_texts(out@) == self.counter_names() + self.gauge_names()
                    + self.histogram_names().take(k as int),
            decreases self.histograms.len() - k,
        {
            let ghost before = out@;
            out.push(self.histograms[k].0.clone());
            assert(name_texts(out@) =~= name_texts(before).push(self.histogram_names()[k as int]));
            assert(name_texts(out@) =~= self.counter_names() + self.gauge_names()
                + self.histogram_names().take(k + 1));
            k += 1;
        }
        assert(self.histogram_names().take(self.histograms@.len() as int)
            =~= self.histogram_names());
        out
    }

    /// Removes all metrics.
    pub fn clear(&mut self)
        ensures
            final(self).is_empty(),
    {
        self.counters = Vec::new();
        self.gauges = Vec::new();
        self.histograms = Vec::new();
        assert(self.counter_names() =~= Seq::<Seq<char>>::empty());
        assert(self.counter_values() =~= Seq::<u64>::empty());
        assert(self.gauge_names() =~= Seq::<Seq<char>>::empty());
        assert(self.gauge_values() =~= Seq::<u64>::empty());
        assert(self.histogram_names() =~= Seq::<Seq<char>>::empty());
        assert(self.histogram_observations() =~= Seq::<Seq<u64>>::empty());
    }
}

impl Default for MetricsRegistry {
    fn default() -> (r: Self)
        ensures
            r.is_empty(),
    {
        MetricsRegistry::new()
    }
}

/// Where a name stands after another name was appended.
pub proof fn lemma_slot_push(names: Seq<Seq<char>>, added: Seq<char>, name: Seq<char>)
    ensures
        slot_of(names.push(added), name) == if slot_of(names, name) < names.len() {
            slot_of(names, name)
        } else if added == name {
            names.len() as int
        } else {
            (names.len() + 1) as int
        },
    decreases names.len(),
{
    lemma_slot_of(names, name);
    if names.len() == 0 {
        assert(names.push(added).drop_first() =~= Seq::<Seq<char>>::empty());
        reveal_with_fuel(slot_of, 2);
    } else if names[0] != name {
        assert(names.push(added).drop_first() =~= names.drop_first().push(added));
        lemma_slot_push(names.drop_first(), added, name);
    }
}

/// A value that is computed when it is first asked for, and kept from
/// then on.
pub struct Lazy<T, F> {
    cell: Option<T>,
    init: Option<F>,
}

impl<T, F> Lazy<T, F> {
    #[verifier::type_invariant]
    closed spec fn ready(&self) -> bool {
        self.cell is None ==> self.init is Some
    }
}

impl<T, F: FnOnce() -> T> Lazy<T, F> {
    /// The value, where it was computed.
    pub closed spec fn value(&self) -> Option<T> {
        self.cell
    }

    /// The function that is to compute the value, while it is not computed.
    pub closed spec fn initializer(&self) -> Option<F> {
        self.init
    }

    /// A value that `init` will compute.
    pub fn new(init: F) -> (r: Self)
        ensures
            r.value() is None,
            r.initializer() == Some(init),
    {
        Lazy { cell: None, init: Some(init) }
    }

    /// Computes the value if it was not computed before; a value that was
    /// computed stays as it is.
    pub fn force(self) -> (r: Self)
        requires
            self.value() is None ==> self.initializer() is Some && self.initializer()->0.requires(
                (),
            ),
        ensures
            r.value() is Some,
            self.value() is Some ==> r.value() == self.value(),
            self.value() is None ==> self.initializer()->0.ensures((), r.value()->0),
    {
        proof {
            use_type_invariant(&self);
        }
        match self.cell {
            Some(value) => Lazy { cell: Some(value), init: self.init },
            None => {
                let f = self.init.unwrap();
                Lazy { cell: Some(f()), init: None }
            },
        }
    }

    /// The value, where it was computed.
    pub fn get(&self) -> (r: Option<&T>)
        ensures
            r is Some <==> self.value() is Some,
            r matches Some(v) ==> self.value() == Some(*v),
    {
        self.cell.as_ref()
    }
}

/// The unsigned number with the same 64 bits as `i`.
pub open spec fn as_unsigned(i: i64) -> u64 {
    if i >= 0 {
        i as u64
    } else {
        (i + 0x1_0000_0000_0000_0000) as u64
    }
}

fn to_unsigned(i: i64) -> (r: u64)
    ensures
        r == as_unsigned(i),
{
    if i >= 0 {
        i as u64
    } else {
        ((i - i64::MIN) as u64) + 0x8000_0000_0000_0000
    }
}

/// What `metrics.counter_inc` does for `args`: the name of the counter and
/// the step, which is one where the second argument is no integer.
pub open spec fn counter_step(args: Seq<ValueView>) -> Result<
    (Seq<char>, u64),
    (HostErrorKind, Seq<char>),
> {
    match text_arg(args, 0) {
        None => Err((HostErrorKind::HostFunction, "metrics.counter_inc: missing name"@)),
        Some(name) => Ok(
            (
                name,
                match int_arg(args, 1) {
                    Some(step) => as_unsigned(step),
                    None => 1,
                },
            ),
        ),
    }
}

/// `metrics.counter_inc`: adds the second argument (or one) to the counter
/// named by the first.
pub fn counter_inc(registry: &mut MetricsRegistry, args: &[Value]) -> (r: Result<Value, HostError>)
    ensures
        match counter_step(views_of(args@)) {
            Ok((name, step)) => {
                &&& r matches Ok(v) && v@ == ValueView::Null
                &&& final(registry).counter(name) == old(registry).counter(name).wrapping_add(step)
            },
            Err(e) => r matches Err(x) && x@ == e && *final(registry) == *old(registry),
        },
{
    let name = match arg_str(args, 0) {
        Some(n) => n,
        None => {
            return Err(HostError::host_function("metrics.counter_inc: missing name"));
        },
    };
    let step: u64 = match arg_int(args, 1) {
        Some(s) => to_unsigned(s),
        None => 1,
    };
    registry.counter_inc(name, step);
    Ok(Value::Null)
}

/// The bits of the number that a value stands for: those of a
/// floating-point number, and for an integer those of the nearest
/// floating-point number.
pub open spec fn number_bits(v: Option<ValueView>) -> Option<u64> {
    match v {
        Some(value) => match value.as_float() {
            Some((bits, _)) => Some(bits),
            None => None,
        },
        None => None,
    }
}

fn bits_of(v: Option<&Value>) -> (r: Option<u64>)
    ensures
        r == number_bits(
            match v {
                Some(x) => Some(x@),
                None => None,
            },
        ),
{
    match v {
        Some(value) => match value.as_float() {
            Some(number) => Some(number.bits),
            None => None,
        },
        None => None,
    }
}

/// What a metric with a number does for `args`: the name and the bits of
/// the number. `missing_name` and `missing_value` are the messages for the
/// two arguments.
pub open spec fn named_number(
    args: Seq<ValueView>,
    missing_name: Seq<char>,
    missing_value: Seq<char>,
) -> Result<(Seq<char>, u64), (HostErrorKind, Seq<char>)> {
    match text_arg(args, 0) {
        None => Err((HostErrorKind::HostFunction, missing_name)),
        Some(name) => match number_bits(arg_at(args, 1)) {
            None => Err((HostErrorKind::HostFunction, missing_value)),
            Some(bits) => Ok((name, bits)),
        },
    }
}

fn read_named_number<'a>(args: &'a [Value], missing_name: &str, missing_value: &str) -> (r: Result<
    (&'a str, u64),
    HostError,
>)
    ensures
        match named_number(views_of(args@), missing_name@, missing_value@) {
            Ok((name, bits)) => r matches Ok(pair) && pair.0@ == name && pair.1 == bits,
            Err(e) => r matches Err(x) && x@ == e,
        },
{
    let name = match arg_str(args, 0) {
        Some(n) => n,
        None => {
            return Err(HostError::host_function(missing_name));
        },
    };
    match bits_of(arg(args, 1)) {
        Some(bits) => Ok((name, bits)),
        None => Err(HostError::host_function(missing_value)),
    }
}

/// `metrics.gauge_set`: sets the gauge named by the first argument to the
/// number in the second.
pub fn gauge_set(registry: &mut MetricsRegistry, args: &[Value]) -> (r: Result<Value, HostError>)
    ensures
        match named_number(
            views_of(args@),
            "metrics.gauge_set: missing name"@,
            "metrics.gauge_set: missing value"@,
        ) {
            Ok((name, bits)) => {
                &&& r matches Ok(v) && v@ == ValueView::Null
                &&& final(registry).gauge(name) == bits
            },
            Err(e) => r matches Err(x) && x@ == e && *final(registry) == *old(registry),
        },
{
    match read_named_number(
        args,
        "metrics.gauge_set: missing name",
        "metrics.gauge_set: missing value",
    ) {
        Ok((name, bits)) => {
            registry.gauge_set(name, bits);
            Ok(Value::Null)
        },
        Err(e) => Err(e),
    }
}

/// `metrics.histogram_observe`: adds the number in the second argument to
/// the histogram named by the first.
pub fn histogram_observe(registry: &mut MetricsRegistry, args: &[Value]) -> (r: Result<
    Value,
    HostError,
>)
    ensures
        match named_number(
            views_of(args@),
            "metrics.histogram_observe: missing name"@,
            "metrics.histogram_observe: missing value"@,
        ) {
            Ok((name, bits)) => {
                &&& r matches Ok(v) && v@ == ValueView::Null
                &&& final(registry).histogram(name) == Some(
                    match old(registry).histogram(name) {
                        Some(seen) => seen.push(bits),
                        None => seq![bits],
                    },
                )
            },
            Err(e) => r matches Err(x) && x@ == e && *final(registry) == *old(registry),
        },
{
    match read_named_number(
        args,
        "metrics.histogram_observe: missing name",
        "metrics.histogram_observe: missing value",
    ) {
        Ok((name, bits)) => {
            registry.histogram_observe(name, bits);
            Ok(Value::Null)
        },
        Err(e) => Err(e),
    }
}

} // verus!
