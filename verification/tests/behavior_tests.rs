use std::cell::Cell;
use std::rc::Rc;

use fut_pool::BackoffStrategy;
use fut_pool::Connection;
use fut_pool::Constructed;
use fut_pool::InitResult;
use fut_pool::ObjectFactory;
use fut_pool::Polled;
use fut_pool::Pool;
use fut_pool::PoolTaker;
use fut_pool::Probe;
use fut_pool::TakeError;
use fut_pool::TakeResult;
use tokio_retry::strategy::ExponentialBackoff;
use tokio_retry::strategy::FibonacciBackoff;
use tokio_retry::strategy::FixedInterval;

const TURNS: u64 = 50_000_000;

#[derive(Debug, Clone, Copy, PartialEq, Eq)]
enum Failure {
    BrokenPipe,
    OutOfSockets,
}

#[derive(Debug, Clone, PartialEq, Eq)]
struct IdConn {
    id: u32,
    usable: bool,
}

impl Connection<Failure> for IdConn {
    fn test_poll(&mut self) -> Probe<Failure> {
        Probe::Ready(self.usable)
    }
}

struct IdFactory {
    next_id: u32,
}

impl ObjectFactory<IdConn, Failure> for IdFactory {
    fn create(&mut self) -> Constructed<IdConn, Failure> {
        self.next_id += 1;
        Constructed::Ready(IdConn { id: self.next_id, usable: true })
    }
}

struct FailingFactory {
    count: Rc<Cell<usize>>,
    fail_from: usize,
}

impl ObjectFactory<IdConn, Failure> for FailingFactory {
    fn create(&mut self) -> Constructed<IdConn, Failure> {
        self.count.set(self.count.get() + 1);
        if self.count.get() >= self.fail_from {
            Constructed::Failed(Failure::OutOfSockets)
        } else {
            Constructed::Ready(IdConn { id: 0, usable: true })
        }
    }
}

/// A connection whose probe answers `Pending` a few times before reporting
/// usable, so the taker must hold it in limbo across turns.
struct SlowConn {
    pending_left: u32,
}

impl Connection<Failure> for SlowConn {
    fn test_poll(&mut self) -> Probe<Failure> {
        if self.pending_left > 0 {
            self.pending_left -= 1;
            Probe::Pending
        } else {
            Probe::Ready(true)
        }
    }
}

struct SlowFactory {
    count: Rc<Cell<usize>>,
}

impl ObjectFactory<SlowConn, Failure> for SlowFactory {
    fn create(&mut self) -> Constructed<SlowConn, Failure> {
        self.count.set(self.count.get() + 1);
        Constructed::Ready(SlowConn { pending_left: 3 })
    }
}

struct BrokenConn;

impl Connection<Failure> for BrokenConn {
    fn test_poll(&mut self) -> Probe<Failure> {
        Probe::Failed(Failure::BrokenPipe)
    }
}

struct BrokenFactory {
    count: Rc<Cell<usize>>,
}

impl ObjectFactory<BrokenConn, Failure> for BrokenFactory {
    fn create(&mut self) -> Constructed<BrokenConn, Failure> {
        self.count.set(self.count.get() + 1);
        Constructed::Ready(BrokenConn)
    }
}

fn granted<T, E>(r: TakeResult<T, E>) -> fut_pool::PoolGuard<T> {
    match r {
        TakeResult::Granted(guard) => guard,
        TakeResult::Failed(_) => panic!("acquisition failed"),
        TakeResult::Suspended(_) => panic!("acquisition ran out of turns"),
    }
}

#[test]
fn size_tracks_idle_registry() {
    let mut pool = Pool::<IdConn, IdFactory>::builder()
        .connector(IdFactory { next_id: 0 })
        .build();

    assert_eq!(pool.size(), 0);
    pool.put(IdConn { id: 100, usable: true });
    assert_eq!(pool.size(), 1);
    pool.put(IdConn { id: 101, usable: true });
    assert_eq!(pool.size(), 2);

    let mut leased = pool.try_take().unwrap();
    assert_eq!(pool.size(), 1);
    let conn = leased.detach().unwrap();
    assert_eq!(pool.size(), 1);
    pool.put(conn);
    assert_eq!(pool.size(), 2);
}

#[test]
fn fifo_service_order() {
    let mut pool = Pool::<IdConn, IdFactory>::builder()
        .connector(IdFactory { next_id: 0 })
        .build();

    pool.put(IdConn { id: 1, usable: true });
    pool.put(IdConn { id: 2, usable: true });
    pool.put(IdConn { id: 3, usable: true });

    assert_eq!(pool.try_take().unwrap().detach().unwrap().id, 1);
    assert_eq!(pool.try_take().unwrap().detach().unwrap().id, 2);
    assert_eq!(pool.try_take().unwrap().detach().unwrap().id, 3);
}

#[test]
fn overflow_evicts_most_recent() {
    let mut pool = Pool::<IdConn, IdFactory>::builder()
        .connector(IdFactory { next_id: 0 })
        .capacity(Some(2))
        .build();

    pool.put(IdConn { id: 1, usable: true });
    pool.put(IdConn { id: 2, usable: true });
    pool.put(IdConn { id: 3, usable: true });

    // the back entry (2) was evicted; the oldest (1) is preserved and served first
    assert_eq!(pool.size(), 2);
    assert_eq!(pool.try_take().unwrap().detach().unwrap().id, 1);
    assert_eq!(pool.try_take().unwrap().detach().unwrap().id, 3);
    assert!(pool.try_take().is_none());
}

#[test]
fn capacity_zero_means_unbounded() {
    let mut pool = Pool::<IdConn, IdFactory>::builder()
        .connector(IdFactory { next_id: 0 })
        .capacity(Some(0))
        .build();

    for id in 0..5 {
        pool.put(IdConn { id, usable: true });
    }
    assert_eq!(pool.size(), 5);
}

#[test]
fn guard_discipline() {
    let mut pool = Pool::<IdConn, IdFactory>::builder()
        .connector(IdFactory { next_id: 0 })
        .build();

    // releasing an attached guard puts the resource back
    let guard = granted(pool.take(TURNS));
    assert_eq!(pool.size(), 0);
    guard.release(&mut pool);
    assert_eq!(pool.size(), 1);

    // releasing after a detach leaves the pool unchanged
    let mut guard = granted(pool.take(TURNS));
    assert_eq!(pool.size(), 0);
    let conn = guard.detach();
    assert!(conn.is_some());
    guard.release(&mut pool);
    assert_eq!(pool.size(), 0);
}

#[test]
fn detach_is_idempotent() {
    let mut pool = Pool::<IdConn, IdFactory>::builder()
        .connector(IdFactory { next_id: 0 })
        .build();

    let mut guard = granted(pool.take(TURNS));
    assert!(guard.detach().is_some());
    assert!(guard.detach().is_none());
}

#[test]
fn first_poll_grace_skips_deadline() {
    // with an idle resource at hand, an acquisition succeeds on its first
    // turn even under a zero timeout: the first evaluation is granted grace
    let mut pool = Pool::<IdConn, IdFactory>::builder()
        .connector(IdFactory { next_id: 0 })
        .timeout(Some(0))
        .build();

    pool.put(IdConn { id: 7, usable: true });
    let guard = granted(pool.take(TURNS));
    assert_eq!(guard.resource().id, 7);
}

#[test]
fn factory_error_is_terminal() {
    let count = Rc::new(Cell::new(0));
    let mut pool = Pool::<IdConn, FailingFactory>::builder()
        .connector(FailingFactory { count: count.clone(), fail_from: 1 })
        .build();

    match pool.take(TURNS) {
        TakeResult::Failed(TakeError::Factory(kind)) => {
            assert_eq!(kind, Failure::OutOfSockets);
        }
        _ => panic!("expected the factory error"),
    }
    // the factory is never retried
    assert_eq!(count.get(), 1);
}

#[test]
fn initialize_stops_on_factory_failure() {
    let count = Rc::new(Cell::new(0));
    let mut pool = Pool::<IdConn, FailingFactory>::builder()
        .connector(FailingFactory { count: count.clone(), fail_from: 3 })
        .build();

    match pool.initialize(5, TURNS) {
        InitResult::Failed(TakeError::Factory(kind)) => {
            assert_eq!(kind, Failure::OutOfSockets);
        }
        _ => panic!("expected the factory error"),
    }
    // the resources gathered before the failure are discarded, not returned
    assert_eq!(pool.size(), 0);
}

#[test]
fn max_tries_one_fails_on_first_error() {
    let count = Rc::new(Cell::new(0));
    let mut pool = Pool::<BrokenConn, BrokenFactory>::builder()
        .connector(BrokenFactory { count: count.clone() })
        .max_tries(Some(1))
        .build();

    match pool.take(TURNS) {
        TakeResult::Failed(err) => assert!(matches!(err, TakeError::Liveness(Failure::BrokenPipe))),
        _ => panic!("expected the liveness error"),
    }
    assert_eq!(count.get(), 1);
}

#[test]
fn pending_probe_holds_resource_in_limbo() {
    // a probe that stays pending suspends the attempt without discarding the
    // resource and without constructing another one
    let count = Rc::new(Cell::new(0));
    let mut pool = Pool::<SlowConn, SlowFactory>::builder()
        .connector(SlowFactory { count: count.clone() })
        .build();

    let mut guard = granted(pool.take(TURNS));
    assert!(guard.detach().is_some());
    assert_eq!(count.get(), 1);
    assert_eq!(pool.size(), 0);
}

#[test]
fn suspended_attempt_resumes() {
    let mut pool = Pool::<IdConn, IdFactory>::builder()
        .connector(IdFactory { next_id: 0 })
        .build();

    match pool.take(0) {
        TakeResult::Suspended(taker) => {
            let guard = granted(pool.resume(taker, TURNS));
            assert!(guard.resource().usable);
        }
        _ => panic!("a zero-turn budget cannot finish"),
    }
}

#[test]
fn fixed_backoff_announces_its_interval() {
    // drive the state machine by hand with fabricated clock readings: after
    // one counted failure the machine announces exactly the configured delay,
    // stays waiting until it has elapsed, and then retries
    let count = Rc::new(Cell::new(0));
    let mut pool = Pool::<BrokenConn, BrokenFactory>::builder()
        .connector(BrokenFactory { count: count.clone() })
        .backoff(BackoffStrategy::Fixed(FixedInterval::from_millis(100)))
        .max_tries(Some(5))
        .build();

    let mut taker = PoolTaker::new(&pool);
    assert!(matches!(taker.poll_once(&mut pool, 0), Polled::Pending)); // constructs
    match taker.poll_once(&mut pool, 0) {
        Polled::Waiting(ms) => assert_eq!(ms, 100), // probe failed: full delay
        _ => panic!("expected a backoff delay"),
    }
    match taker.poll_once(&mut pool, 40) {
        Polled::Waiting(ms) => assert_eq!(ms, 60), // still waiting: remainder
        _ => panic!("expected the delay to continue"),
    }
    assert!(matches!(taker.poll_once(&mut pool, 101), Polled::Pending)); // wait over: constructs
    match taker.poll_once(&mut pool, 101) {
        Polled::Waiting(ms) => assert_eq!(ms, 100), // fixed: same delay again
        _ => panic!("expected a second backoff delay"),
    }
}

#[test]
fn exponential_backoff_grows() {
    let count = Rc::new(Cell::new(0));
    let mut pool = Pool::<BrokenConn, BrokenFactory>::builder()
        .connector(BrokenFactory { count: count.clone() })
        .backoff(BackoffStrategy::Exponential(ExponentialBackoff::from_millis(50)))
        .max_tries(Some(5))
        .build();

    let mut taker = PoolTaker::new(&pool);
    assert!(matches!(taker.poll_once(&mut pool, 0), Polled::Pending));
    match taker.poll_once(&mut pool, 0) {
        Polled::Waiting(ms) => assert_eq!(ms, 50),
        _ => panic!("expected a backoff delay"),
    }
    assert!(matches!(taker.poll_once(&mut pool, 51), Polled::Pending));
    match taker.poll_once(&mut pool, 51) {
        Polled::Waiting(ms) => assert_eq!(ms, 2500), // 50 squared
        _ => panic!("expected a second backoff delay"),
    }
}

#[test]
fn fibonacci_backoff_follows_the_series() {
    let count = Rc::new(Cell::new(0));
    let mut pool = Pool::<BrokenConn, BrokenFactory>::builder()
        .connector(BrokenFactory { count: count.clone() })
        .backoff(BackoffStrategy::Fibonacci(FibonacciBackoff::from_millis(30)))
        .max_tries(Some(5))
        .build();

    let mut taker = PoolTaker::new(&pool);
    assert!(matches!(taker.poll_once(&mut pool, 0), Polled::Pending));
    match taker.poll_once(&mut pool, 0) {
        Polled::Waiting(ms) => assert_eq!(ms, 30),
        _ => panic!("expected a backoff delay"),
    }
    assert!(matches!(taker.poll_once(&mut pool, 31), Polled::Pending));
    match taker.poll_once(&mut pool, 31) {
        Polled::Waiting(ms) => assert_eq!(ms, 30),
        _ => panic!("expected a second backoff delay"),
    }
    assert!(matches!(taker.poll_once(&mut pool, 62), Polled::Pending));
    match taker.poll_once(&mut pool, 62) {
        Polled::Waiting(ms) => assert_eq!(ms, 60),
        _ => panic!("expected a third backoff delay"),
    }
}

#[test]
fn deadline_fires_on_later_polls() {
    // past the grace turn, any turn whose elapsed time exceeds the timeout is
    // terminal, even while a backoff delay is running
    let count = Rc::new(Cell::new(0));
    let mut pool = Pool::<BrokenConn, BrokenFactory>::builder()
        .connector(BrokenFactory { count: count.clone() })
        .backoff(BackoffStrategy::Fixed(FixedInterval::from_millis(1000)))
        .timeout(Some(200))
        .max_tries(Some(5))
        .build();

    let mut taker = PoolTaker::new(&pool);
    assert!(matches!(taker.poll_once(&mut pool, 0), Polled::Pending));
    assert!(matches!(taker.poll_once(&mut pool, 0), Polled::Waiting(1000)));
    // mid-delay, the deadline passes
    match taker.poll_once(&mut pool, 201) {
        Polled::Ready(Err(TakeError::TimedOut)) => {}
        _ => panic!("expected the deadline"),
    }
}

#[test]
fn destroy_clamps_to_available() {
    let mut pool = Pool::<IdConn, IdFactory>::builder()
        .connector(IdFactory { next_id: 0 })
        .build();

    for id in 0..4 {
        pool.put(IdConn { id, usable: true });
    }
    pool.destroy(2);
    assert_eq!(pool.size(), 2);
    // the survivors are the most recently returned ones
    assert_eq!(pool.try_take().unwrap().detach().unwrap().id, 2);
    pool.destroy(9);
    assert_eq!(pool.size(), 0);
}

#[test]
fn initialize_with_no_turns_is_incomplete() {
    let mut pool = Pool::<IdConn, IdFactory>::builder()
        .connector(IdFactory { next_id: 0 })
        .build();

    assert!(matches!(pool.initialize(1, 0), InitResult::Incomplete));
    assert_eq!(pool.size(), 0);
}

#[test]
fn backoff_cursor_is_fresh_per_attempt() {
    // each attempt copies the pool's template, so one attempt's progression
    // does not leak into the next: both start at the base delay
    let count = Rc::new(Cell::new(0));
    let mut pool = Pool::<BrokenConn, BrokenFactory>::builder()
        .connector(BrokenFactory { count: count.clone() })
        .backoff(BackoffStrategy::Exponential(ExponentialBackoff::from_millis(50)))
        .max_tries(Some(5))
        .build();

    let mut first = PoolTaker::new(&pool);
    assert!(matches!(first.poll_once(&mut pool, 0), Polled::Pending));
    match first.poll_once(&mut pool, 0) {
        Polled::Waiting(ms) => assert_eq!(ms, 50),
        _ => panic!("expected a backoff delay"),
    }
    assert!(matches!(first.poll_once(&mut pool, 51), Polled::Pending));
    match first.poll_once(&mut pool, 51) {
        Polled::Waiting(ms) => assert_eq!(ms, 2500),
        _ => panic!("expected a grown delay"),
    }
    drop(first);

    let mut second = PoolTaker::new(&pool);
    assert!(matches!(second.poll_once(&mut pool, 0), Polled::Pending));
    match second.poll_once(&mut pool, 0) {
        Polled::Waiting(ms) => assert_eq!(ms, 50),
        _ => panic!("expected the base delay again"),
    }
}

/// A factory whose construction stays in flight for a few steps before the
/// resource is ready.
struct SlowBuildFactory {
    count: Rc<Cell<usize>>,
    steps_left: u32,
}

impl ObjectFactory<IdConn, Failure> for SlowBuildFactory {
    fn create(&mut self) -> Constructed<IdConn, Failure> {
        self.count.set(self.count.get() + 1);
        if self.steps_left > 0 {
            self.steps_left -= 1;
            Constructed::Pending
        } else {
            Constructed::Ready(IdConn { id: 42, usable: true })
        }
    }
}

#[test]
fn pending_construction_is_stepped_to_completion() {
    // a construction that stays in flight is stepped turn by turn; no second
    // construction is started alongside it, and its resource is leased
    let count = Rc::new(Cell::new(0));
    let mut pool = Pool::<IdConn, SlowBuildFactory>::builder()
        .connector(SlowBuildFactory { count: count.clone(), steps_left: 3 })
        .build();

    let guard = granted(pool.take(TURNS));
    assert_eq!(guard.resource().id, 42);
    assert_eq!(count.get(), 4); // three pending steps, then ready
    assert_eq!(pool.size(), 0);
}

#[test]
fn unusable_probe_is_not_counted() {
    // unusable (without an error) is discarded and retried without touching
    // the failure counter: even with a bound of one, the attempt succeeds
    // once a usable resource comes
    let count = Rc::new(Cell::new(0));
    let mut pool = Pool::<TriConn, TriFactory>::builder()
        .connector(TriFactory { count: count.clone(), unusable_left: 2 })
        .max_tries(Some(1))
        .build();

    let guard = granted(pool.take(TURNS));
    assert!(guard.resource().usable);
    assert_eq!(count.get(), 3); // two discarded unusable ones, then a keeper
}

#[derive(Debug)]
struct TriConn {
    usable: bool,
}

impl Connection<Failure> for TriConn {
    fn test_poll(&mut self) -> Probe<Failure> {
        Probe::Ready(self.usable)
    }
}

struct TriFactory {
    count: Rc<Cell<usize>>,
    unusable_left: u32,
}

impl ObjectFactory<TriConn, Failure> for TriFactory {
    fn create(&mut self) -> Constructed<TriConn, Failure> {
        self.count.set(self.count.get() + 1);
        if self.unusable_left > 0 {
            self.unusable_left -= 1;
            Constructed::Ready(TriConn { usable: false })
        } else {
            Constructed::Ready(TriConn { usable: true })
        }
    }
}

#[test]
fn initialize_zero_is_complete() {
    let mut pool = Pool::<IdConn, IdFactory>::builder()
        .connector(IdFactory { next_id: 0 })
        .build();

    pool.put(IdConn { id: 1, usable: true });
    assert!(matches!(pool.initialize(0, TURNS), InitResult::Complete));
    assert_eq!(pool.size(), 1);
}

#[test]
fn initialize_tops_up_a_nonempty_pool() {
    let mut pool = Pool::<IdConn, IdFactory>::builder()
        .connector(IdFactory { next_id: 100 })
        .build();

    pool.put(IdConn { id: 1, usable: true });
    pool.put(IdConn { id: 2, usable: true });
    pool.put(IdConn { id: 3, usable: true });

    assert!(matches!(pool.initialize(5, TURNS), InitResult::Complete));
    assert_eq!(pool.size(), 5); // the three idle ones recycled, two built
}
