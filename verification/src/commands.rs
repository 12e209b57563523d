//! Commands that the Bluetooth side hands to the Wi-Fi worker.
//!
//! The hand-over is a `heapless::spsc::Queue` of four slots, which holds at
//! most three commands; a command that finds it full is dropped.
use vstd::prelude::*;

verus! {

#[verifier::external_type_specification]
#[verifier::external_body]
#[verifier::reject_recursive_types(T)]
pub struct ExSpscQueue<T, const N: usize>(heapless::spsc::Queue<T, N>);

/// A request to join a network.
pub enum WifiCommand {
    Connect { ssid: String, pwd: String },
}

impl View for WifiCommand {
    type V = (Seq<char>, Seq<char>);

    open spec fn view(&self) -> (Seq<char>, Seq<char>) {
        match self {
            WifiCommand::Connect { ssid, pwd } => (ssid@, pwd@),
        }
    }
}

/// Commands that the queue holds at most.
pub const QUEUE_CAPACITY: usize = 3;

/// The commands that a queue holds, oldest first, as (SSID, password).
pub uninterp spec fn queued_commands(q: heapless::spsc::Queue<WifiCommand, 4>) -> Seq<
    (Seq<char>, Seq<char>),
>;

/// `heapless::spsc::Queue::new`: an empty queue.
#[verifier::external_body]
fn new_command_queue() -> (r: heapless::spsc::Queue<WifiCommand, 4>)
    ensures
        queued_commands(r) == Seq::<(Seq<char>, Seq<char>)>::empty(),
{
    heapless::spsc::Queue::new()
}

/// `heapless::spsc::Queue::enqueue`: with fewer than `N - 1` (here three)
/// commands queued, appends `cmd` at the back (`Ok`); otherwise hands `cmd`
/// back and leaves the queue as it was. It does not panic.
#[verifier::external_body]
fn enqueue_command(q: &mut heapless::spsc::Queue<WifiCommand, 4>, cmd: WifiCommand) -> (r: Result<
    (),
    WifiCommand,
>)
    ensures
        queued_commands(*old(q)).len() < 3 ==> {
            &&& r is Ok
            &&& queued_commands(*final(q)) == queued_commands(*old(q)).push(cmd@)
        },
        queued_commands(*old(q)).len() >= 3 ==> {
            &&& r matches Err(back) && back@ == cmd@
            &&& queued_commands(*final(q)) == queued_commands(*old(q))
        },
    no_unwind
{
    q.enqueue(cmd)
}

/// `heapless::spsc::Queue::dequeue`: the oldest command, taken off the queue,
/// or `None` when the queue is empty. It does not panic.
#[verifier::external_body]
fn dequeue_command(q: &mut heapless::spsc::Queue<WifiCommand, 4>) -> (r: Option<WifiCommand>)
    ensures
        queued_commands(*old(q)).len() == 0 ==> {
            &&& r is None
            &&& queued_commands(*final(q)) == queued_commands(*old(q))
        },
        queued_commands(*old(q)).len() > 0 ==> {
            &&& r matches Some(c) && c@ == queued_commands(*old(q))[0]
            &&& queued_commands(*final(q)) == queued_commands(*old(q)).drop_first()
        },
    no_unwind
{
    q.dequeue()
}

/// The queue of commands between the Bluetooth handlers and the Wi-Fi worker.
pub struct CommandQueue {
    inner: heapless::spsc::Queue<WifiCommand, 4>,
}

impl CommandQueue {
    /// The queue never holds more than three commands.
    #[verifier::type_invariant]
    spec fn within_capacity(self) -> bool {
        queued_commands(self.inner).len() <= QUEUE_CAPACITY
    }
}

impl View for CommandQueue {
    type V = Seq<(Seq<char>, Seq<char>)>;

    closed spec fn view(&self) -> Seq<(Seq<char>, Seq<char>)> {
        queued_commands(self.inner)
    }
}

impl CommandQueue {
    /// An empty queue.
    pub fn new() -> (r: Self)
        ensures
            r@ == Seq::<(Seq<char>, Seq<char>)>::empty(),
            r@.len() <= QUEUE_CAPACITY,
    {
        CommandQueue { inner: new_command_queue() }
    }

    /// Appends `cmd` when fewer than three commands wait; otherwise drops it.
    /// Says whether it was queued.
    pub fn enqueue(&mut self, cmd: WifiCommand) -> (queued: bool)
        ensures
            queued == (old(self)@.len() < QUEUE_CAPACITY),
            queued ==> final(self)@ == old(self)@.push(cmd@),
            !queued ==> final(self)@ == old(self)@,
            final(self)@.len() <= QUEUE_CAPACITY,
    {
        proof {
            use_type_invariant(&*self);
        }
        enqueue_command(&mut self.inner, cmd).is_ok()
    }

    /// Takes the oldest command off the queue, if there is one.
    pub fn dequeue(&mut self) -> (r: Option<WifiCommand>)
        ensures
            old(self)@.len() == 0 ==> r is None && final(self)@ == old(self)@,
            old(self)@.len() > 0 ==> {
                &&& r matches Some(c) && c@ == old(self)@[0]
                &&& final(self)@ == old(self)@.drop_first()
            },
            final(self)@.len() <= QUEUE_CAPACITY,
    {
        proof {
            use_type_invariant(&*self);
        }
        dequeue_command(&mut self.inner)
    }

    /// Takes every waiting command off the queue, oldest first.
    pub fn drain(&mut self) -> (r: Vec<WifiCommand>)
        ensures
            r@.map_values(|c: WifiCommand| c@) == old(self)@,
            final(self)@ == Seq::<(Seq<char>, Seq<char>)>::empty(),
            old(self)@.len() <= QUEUE_CAPACITY,
    {
        proof {
            use_type_invariant(&*self);
        }
        let mut taken: Vec<WifiCommand> = Vec::new();
        let ghost start = self@;
        loop
            invariant
                start == taken@.map_values(|c: WifiCommand| c@) + self@,
            ensures
                start == taken@.map_values(|c: WifiCommand| c@),
                self@ == Seq::<(Seq<char>, Seq<char>)>::empty(),
            decreases self@.len(),
        {
            let ghost before = self@;
            match self.dequeue() {
                Some(cmd) => {
                    let ghost prev = taken@;
                    taken.push(cmd);
                    assert(taken@.map_values(|c: WifiCommand| c@) =~= prev.map_values(
                        |c: WifiCommand| c@,
                    ).push(before[0]));
                    assert(before =~= seq![before[0]] + before.drop_first());
                    assert(start =~= taken@.map_values(|c: WifiCommand| c@) + self@);
                },
                None => {
                    assert(start =~= taken@.map_values(|c: WifiCommand| c@));
                    break;
                },
            }
        }
        taken
    }
}

} // verus!
