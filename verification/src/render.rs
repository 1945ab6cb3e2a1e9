//! The hand-out of a render's jobs, one for each pixel, and the collection of
//! their results.
//!
//! One thread, the dispatcher, owns the image. It hands the pixels out as
//! jobs to a pool of workers, row by row and within a row from left to right,
//! and takes their results back as they come in, in whatever order. It never
//! lets more than four jobs for each worker be out at once: at that point it
//! stops handing out and waits for results. The image is done when every
//! pixel has been handed out and has come back.
//!
//! The pool and the channel are the caller's. This module keeps the books:
//! it says what the dispatcher does next, and checks each result against
//! what is out.

use vstd::prelude::*;

verus! {

/// The number of jobs that may be out for each worker of the pool.
pub const BACKLOG_PER_WORKER: usize = 4;

/// What the dispatcher does next.
#[derive(Clone, Copy, Debug, PartialEq, Eq, Structural)]
pub enum Action {
    /// Hand the job for pixel `(u, v)` to the pool. It is counted as out.
    Submit { u: u32, v: u32 },
    /// Take what results there are off the channel and `collect` them, then
    /// give way to the workers: too much is out, or everything is handed out
    /// and something is still to come.
    Collect,
    /// Every pixel has been handed out and has come back.
    Finish,
}

/// Why a result is refused.
#[derive(Clone, Copy, Debug, PartialEq, Eq, Structural)]
pub enum Refusal {
    /// The pixel lies outside the image.
    OutOfImage,
    /// The job for the pixel has not been handed out.
    NotSubmitted,
    /// The result for the pixel has come in before.
    Duplicate,
}

/// The number of places below `n` at which `flags` is still false.
pub open spec fn pending(flags: Seq<bool>, n: int) -> int
    decreases n,
{
    if n <= 0 {
        0
    } else {
        pending(flags, n - 1) + (if flags[n - 1] { 0int } else { 1int })
    }
}

/// Calls `num_cpus::get`, which asks the system how many processors the
/// program may run on. Nothing is claimed of the number.
#[verifier::external_body]
fn available_cores() -> usize {
    num_cpus::get()
}

/// The books of a render.
pub struct Dispatcher {
    width: u32,
    height: u32,
    workers: usize,
    limit: usize,
    submitted: usize,
    in_flight: usize,
    reported: Vec<bool>,
}

impl Dispatcher {
    /// The width of the image, in pixels.
    pub closed spec fn width(&self) -> int {
        self.width as int
    }

    /// The height of the image, in pixels.
    pub closed spec fn height(&self) -> int {
        self.height as int
    }

    /// The number of pixels, which is the number of jobs.
    pub open spec fn total(&self) -> int {
        self.width() * self.height()
    }

    /// The number of workers in the pool.
    pub closed spec fn workers(&self) -> int {
        self.workers as int
    }

    /// The most jobs that may be out at once.
    pub closed spec fn limit(&self) -> int {
        self.limit as int
    }

    /// The number of jobs handed out so far. They are the first so many
    /// pixels, counted row by row.
    pub closed spec fn submitted(&self) -> int {
        self.submitted as int
    }

    /// The number of jobs that are out: handed out, and not yet back.
    pub closed spec fn in_flight(&self) -> int {
        self.in_flight as int
    }

    /// For each pixel, counted row by row, whether its result is in.
    pub closed spec fn reported(&self) -> Seq<bool> {
        self.reported@
    }

    /// The place of pixel `(x, y)` in the count row by row.
    pub open spec fn index(&self, x: int, y: int) -> int {
        y * self.width() + x
    }

    /// Whether the result for pixel `(x, y)` is in.
    pub open spec fn has(&self, x: int, y: int) -> bool {
        self.reported()[self.index(x, y)]
    }

    /// The books balance: there is a flag for each pixel; what is out is what
    /// was handed out and is not back, and is within the limit; nothing came
    /// back that was not handed out.
    pub closed spec fn wf(&self) -> bool {
        &&& self.reported@.len() == self.width * self.height
        &&& 0 < self.workers
        &&& self.limit == self.workers * BACKLOG_PER_WORKER
        &&& self.submitted <= self.reported@.len()
        &&& self.in_flight <= self.limit
        &&& self.in_flight == pending(self.reported@, self.submitted as int)
        &&& forall|i: int| self.submitted <= i < self.reported@.len() ==> !self.reported@[i]
    }

    /// Whether books can be kept for an image of `width` by `height` pixels
    /// and a pool of `workers` threads: a pool has at least one worker, and
    /// the limit and the number of pixels are numbers that the machine can
    /// hold.
    pub open spec fn fits(width: u32, height: u32, workers: usize) -> bool {
        &&& workers > 0
        &&& workers * BACKLOG_PER_WORKER <= usize::MAX
        &&& width * height <= usize::MAX
    }

    /// Whether the books are those of a render that is about to begin:
    /// nothing handed out, nothing in.
    pub open spec fn fresh(&self, width: u32, height: u32, workers: usize) -> bool {
        &&& self.width() == width
        &&& self.height() == height
        &&& self.workers() == workers
        &&& self.limit() == workers * BACKLOG_PER_WORKER
        &&& self.submitted() == 0
        &&& self.in_flight() == 0
        &&& self.reported().len() == width * height
        &&& forall|i: int| 0 <= i < width * height ==> !self.reported()[i]
    }

    /// The books for an image of `width` by `height` pixels and a pool of
    /// `workers` threads, where such books can be kept.
    pub fn new(width: u32, height: u32, workers: usize) -> (books: Option<Dispatcher>)
        ensures
            books is Some <==> Dispatcher::fits(width, height, workers),
            books matches Some(b) ==> b.wf() && b.fresh(width, height, workers),
    {
        if workers == 0 {
            return None;
        }
        let limit: usize = match workers.checked_mul(BACKLOG_PER_WORKER) {
            Some(limit) => limit,
            None => {
                return None;
            },
        };
        assert(width * height >= 0 && width * height <= 0xFFFF_FFFF * 0xFFFF_FFFF)
            by (nonlinear_arith)
            requires
                0 <= width <= 0xFFFF_FFFF,
                0 <= height <= 0xFFFF_FFFF,
        ;
        let pixels: u64 = width as u64 * height as u64;
        if pixels > usize::MAX as u64 {
            return None;
        }
        let total: usize = pixels as usize;
        let mut reported: Vec<bool> = Vec::new();
        let mut i: usize = 0;
        while i < total
            invariant
                i <= total,
                reported@.len() == i,
                forall|j: int| 0 <= j < i ==> !reported@[j],
            decreases total - i,
        {
            reported.push(false);
            i = i + 1;
        }
        Some(Dispatcher { width, height, workers, limit, submitted: 0, in_flight: 0, reported })
    }

    /// The books for an image of `width` by `height` pixels and a pool with a
    /// worker for each processor that the program may run on.
    ///
    /// How many those are is the system's to say. Whatever it says, books
    /// that are handed out are fresh ones for that many workers; and there are
    /// none for an image with more pixels than the machine can count.
    pub fn for_machine(width: u32, height: u32) -> (books: Option<Dispatcher>)
        ensures
            books matches Some(b) ==> b.wf() && exists|workers: usize|
                Dispatcher::fits(width, height, workers) && #[trigger] b.fresh(
                    width,
                    height,
                    workers,
                ),
            width * height > usize::MAX ==> books is None,
    {
        let workers: usize = available_cores();
        Dispatcher::new(width, height, workers)
    }

    /// The number of workers that the books are kept for.
    pub fn pool_size(&self) -> (workers: usize)
        requires
            self.wf(),
        ensures
            workers == self.workers(),
            workers > 0,
    {
        self.workers
    }

    /// Says what to do next, and where that is to hand out a job, counts the
    /// job as out.
    ///
    /// While the limit is reached, results are to be collected. Below the
    /// limit the next pixel is handed out, as long as there is one. When all
    /// are handed out, results are collected until none is out; then the
    /// render is finished.
    pub fn next(&mut self) -> (action: Action)
        requires
            old(self).wf(),
        ensures
            final(self).wf(),
            final(self).width() == old(self).width(),
            final(self).height() == old(self).height(),
            final(self).workers() == old(self).workers(),
            final(self).limit() == old(self).limit(),
            final(self).reported() == old(self).reported(),
            action == (if old(self).in_flight() == old(self).limit() {
                Action::Collect
            } else if old(self).submitted() < old(self).total() {
                Action::Submit {
                    u: (old(self).submitted() % old(self).width()) as u32,
                    v: (old(self).submitted() / old(self).width()) as u32,
                }
            } else if old(self).in_flight() > 0 {
                Action::Collect
            } else {
                Action::Finish
            }),
            action is Submit ==> final(self).submitted() == old(self).submitted() + 1
                && final(self).in_flight() == old(self).in_flight() + 1,
            !(action is Submit) ==> final(self).submitted() == old(self).submitted()
                && final(self).in_flight() == old(self).in_flight(),
    {
        if self.in_flight == self.limit {
            Action::Collect
        } else if self.submitted < self.reported.len() {
            let width: usize = self.width as usize;
            proof {
                let n = self.submitted as int;
                let w = self.width as int;
                let h = self.height as int;
                assert(w > 0) by (nonlinear_arith)
                    requires
                        n < w * h,
                        0 <= n,
                        0 <= w,
                ;
                assert(n / w < h && 0 <= n % w < w && 0 <= n / w) by (nonlinear_arith)
                    requires
                        0 <= n < w * h,
                        w > 0,
                ;
            }
            let u: u32 = (self.submitted % width) as u32;
            let v: u32 = (self.submitted / width) as u32;
            self.submitted = self.submitted + 1;
            self.in_flight = self.in_flight + 1;
            Action::Submit { u, v }
        } else if self.in_flight > 0 {
            Action::Collect
        } else {
            Action::Finish
        }
    }

    /// Takes in the result for pixel `(x, y)`.
    ///
    /// It is accepted if the pixel lies in the image, its job has been handed
    /// out, and no result for it has come in before; then the pixel is marked
    /// and one job less is out. Otherwise it is refused, and the books stay
    /// as they are.
    pub fn collect(&mut self, x: usize, y: usize) -> (r: Result<(), Refusal>)
        requires
            old(self).wf(),
        ensures
            final(self).wf(),
            final(self).width() == old(self).width(),
            final(self).height() == old(self).height(),
            final(self).workers() == old(self).workers(),
            final(self).limit() == old(self).limit(),
            final(self).submitted() == old(self).submitted(),
            r == (if x >= old(self).width() || y >= old(self).height() {
                Err::<(), Refusal>(Refusal::OutOfImage)
            } else if old(self).index(x as int, y as int) >= old(self).submitted() {
                Err::<(), Refusal>(Refusal::NotSubmitted)
            } else if old(self).has(x as int, y as int) {
                Err::<(), Refusal>(Refusal::Duplicate)
            } else {
                Ok::<(), Refusal>(())
            }),
            r is Ok ==> final(self).reported() == old(self).reported().update(
                old(self).index(x as int, y as int),
                true,
            ) && final(self).in_flight() == old(self).in_flight() - 1,
            r is Err ==> final(self).reported() == old(self).reported() && final(self).in_flight()
                == old(self).in_flight(),
    {
        if x >= self.width as usize || y >= self.height as usize {
            return Err(Refusal::OutOfImage);
        }
        let total: usize = self.reported.len();
        proof {
            let w = self.width as int;
            let h = self.height as int;
            assert(0 <= y * w <= y * w + x < w * h) by (nonlinear_arith)
                requires
                    0 <= x < w,
                    0 <= y < h,
            ;
            assert(w * h == total);
        }
        let index: usize = y * self.width as usize + x;
        if index >= self.submitted {
            return Err(Refusal::NotSubmitted);
        }
        if self.reported[index] {
            return Err(Refusal::Duplicate);
        }
        proof {
            pending_after_report(self.reported@, self.submitted as int, index as int);
        }
        self.reported.set(index, true);
        self.in_flight = self.in_flight - 1;
        Ok(())
    }

    /// Whether every pixel has been handed out and has come back.
    pub fn is_finished(&self) -> (done: bool)
        requires
            self.wf(),
        ensures
            done == (self.submitted() == self.total() && self.in_flight() == 0),
    {
        self.submitted == self.reported.len() && self.in_flight == 0
    }

    /// The number of results that are in.
    pub fn collected(&self) -> (n: usize)
        requires
            self.wf(),
        ensures
            n == self.submitted() - self.in_flight(),
    {
        proof {
            pending_is_bounded(self.reported@, self.submitted as int);
        }
        self.submitted - self.in_flight
    }
}

/// No more is pending below `n` than there are places.
pub proof fn pending_is_bounded(flags: Seq<bool>, n: int)
    requires
        0 <= n,
    ensures
        0 <= pending(flags, n) <= n,
    decreases n,
{
    if n > 0 {
        pending_is_bounded(flags, n - 1);
    }
}

/// Marking a place that was pending leaves one less pending.
pub proof fn pending_after_report(flags: Seq<bool>, n: int, k: int)
    requires
        0 <= k < n <= flags.len(),
        !flags[k],
    ensures
        pending(flags.update(k, true), n) == pending(flags, n) - 1,
        pending(flags, n) >= 1,
    decreases n,
{
    if n - 1 > k {
        pending_after_report(flags, n - 1, k);
    } else {
        pending_unchanged_below(flags, k, k);
        pending_is_bounded(flags, k);
    }
}

/// Marking a place changes nothing below it.
pub proof fn pending_unchanged_below(flags: Seq<bool>, n: int, k: int)
    requires
        0 <= n <= k < flags.len(),
    ensures
        pending(flags.update(k, true), n) == pending(flags, n),
    decreases n,
{
    if n > 0 {
        pending_unchanged_below(flags, n - 1, k);
    }
}

/// Where nothing is pending below `n`, every place below `n` is marked.
pub proof fn nothing_pending_means_all_marked(flags: Seq<bool>, n: int)
    requires
        0 <= n <= flags.len(),
        pending(flags, n) == 0,
    ensures
        forall|i: int| 0 <= i < n ==> flags[i],
    decreases n,
{
    if n > 0 {
        pending_is_bounded(flags, n - 1);
        nothing_pending_means_all_marked(flags, n - 1);
    }
}

/// The count row by row gives each pixel of the image a place of its own, and
/// each place a pixel: the job handed out at place `i` is for the pixel in
/// column `i % width` of row `i / width`, and that pixel's place is `i`.
pub proof fn places_and_pixels(width: int, height: int, i: int, x: int, y: int)
    requires
        0 < width,
        0 <= height,
    ensures
        0 <= i < width * height ==> 0 <= i % width < width && 0 <= i / width < height && (i
            / width) * width + i % width == i,
        0 <= x < width && 0 <= y < height ==> 0 <= y * width + x < width * height && (y * width
            + x) % width == x && (y * width + x) / width == y,
{
    if 0 <= i < width * height {
        assert(0 <= i % width < width && 0 <= i / width < height && (i / width) * width + i % width
            == i) by (nonlinear_arith)
            requires
                0 <= i < width * height,
                0 < width,
        ;
    }
    if 0 <= x < width && 0 <= y < height {
        assert(0 <= y * width + x < width * height) by (nonlinear_arith)
            requires
                0 <= x < width,
                0 <= y < height,
        ;
        vstd::arithmetic::div_mod::lemma_fundamental_div_mod_converse(y * width + x, width, y, x);
    }
}

/// Books that balance never have more out than the limit, which is four jobs
/// for each worker; what is out is what was handed out and has not come back;
/// and no more was handed out than there are pixels.
pub proof fn books_balance(books: Dispatcher)
    requires
        books.wf(),
    ensures
        0 < books.workers(),
        books.limit() == books.workers() * BACKLOG_PER_WORKER,
        0 <= books.in_flight() <= books.limit(),
        books.in_flight() <= books.submitted() <= books.total(),
        books.in_flight() == pending(books.reported(), books.submitted()),
        books.reported().len() == books.total(),
        forall|i: int| books.submitted() <= i < books.total() ==> !books.reported()[i],
{
    pending_is_bounded(books.reported(), books.submitted());
}

/// A finished render has the result of every pixel, once: each was handed out
/// once, `collect` takes a pixel's result only the first time, and with
/// nothing out every one of them has come back.
pub proof fn finished_means_every_pixel_is_in(books: Dispatcher, x: int, y: int)
    requires
        books.wf(),
        books.submitted() == books.total(),
        books.in_flight() == 0,
        0 <= x < books.width(),
        0 <= y < books.height(),
    ensures
        books.has(x, y),
        books.reported().len() == books.total(),
{
    let w = books.width();
    let h = books.height();
    assert(0 <= y * w + x < w * h) by (nonlinear_arith)
        requires
            0 <= x < w,
            0 <= y < h,
    ;
    nothing_pending_means_all_marked(books.reported(), books.submitted());
}

} // verus!
