//! The linked program: activation, uniform lookup, release.

use vstd::prelude::*;
use crate::device::{optional_view, Command, CommandView, Reply, ReplyView};

verus! {

/// A linked program, sole owner of its native program object.
///
/// A program is only ever made by a successful link, so its handle is never
/// null. It remembers the uniform locations it has been told, and whether it
/// has been released.
#[derive(Debug, PartialEq, Eq)]
pub struct Program {
    handle: u32,
    live: bool,
    locations: Vec<(String, i32)>,
}

/// What a [`Program`] is, as a mathematical value.
pub struct ProgramView {
    /// The native program object.
    pub handle: u32,
    /// Whether the native object has not been released yet.
    pub live: bool,
    /// The uniform locations looked up so far, -1 standing for "absent".
    pub locations: Map<Seq<char>, i32>,
}

/// How a uniform's location is to be had.
#[derive(Debug, PartialEq, Eq)]
pub enum UniformLookup {
    /// The location is known; -1 means that the program has no such uniform.
    Known(i32),
    /// The device has to be asked: perform the command and hand its reply to
    /// [`Program::record_location`].
    Ask(Command),
}

/// What a [`UniformLookup`] is, as a mathematical value.
pub enum UniformLookupView {
    Known(i32),
    Ask(CommandView),
}

impl View for UniformLookup {
    type V = UniformLookupView;

    open spec fn view(&self) -> UniformLookupView {
        match *self {
            UniformLookup::Known(location) => UniformLookupView::Known(location),
            UniformLookup::Ask(command) => UniformLookupView::Ask(command@),
        }
    }
}

impl ProgramView {
    /// The program that a successful link of `handle` yields.
    pub open spec fn linked(handle: u32) -> ProgramView {
        ProgramView { handle, live: true, locations: Map::empty() }
    }

    /// The handle is not null, and every remembered location is a location
    /// or the sentinel.
    pub open spec fn wf(self) -> bool {
        &&& self.handle != 0
        &&& forall|name: Seq<char>| #[trigger]
            self.locations.contains_key(name) ==> self.locations[name] >= -1
    }

    /// The command that makes the program active, if it is still there to be
    /// activated.
    pub open spec fn activate(self) -> Option<CommandView> {
        if self.live {
            Some(CommandView::UseProgram { program: self.handle })
        } else {
            None
        }
    }

    /// The command that a release issues: the deletion of the native object
    /// while the program is live, nothing afterwards.
    pub open spec fn release_command(self) -> Option<CommandView> {
        if self.live {
            Some(CommandView::DeleteProgram { program: self.handle })
        } else {
            None
        }
    }

    /// The program after a release.
    pub open spec fn released(self) -> ProgramView {
        ProgramView { live: false, ..self }
    }

    /// How the location of `name` is to be had: from memory if it was looked
    /// up before, from the device if the program is live, and otherwise not
    /// at all.
    pub open spec fn lookup(self, name: Seq<char>) -> UniformLookupView {
        if self.locations.contains_key(name) {
            UniformLookupView::Known(self.locations[name])
        } else if self.live {
            UniformLookupView::Ask(
                CommandView::QueryUniformLocation { program: self.handle, name },
            )
        } else {
            UniformLookupView::Known(-1i32)
        }
    }

    /// The program after the device's reply to a lookup of `name`: the first
    /// answer for a name is the one remembered.
    pub open spec fn record(self, name: Seq<char>, reply: ReplyView) -> ProgramView {
        if self.locations.contains_key(name) || !self.live {
            self
        } else {
            ProgramView { locations: self.locations.insert(name, reply.location()), ..self }
        }
    }

    /// The location of `name`, as far as the program knows it.
    pub open spec fn location(self, name: Seq<char>) -> i32 {
        if self.locations.contains_key(name) {
            self.locations[name]
        } else {
            -1i32
        }
    }
}

/// The map that a list of remembered locations stands for. A later entry for
/// a name would hide an earlier one; the program never adds a second.
pub closed spec fn remembered(entries: Seq<(String, i32)>) -> Map<Seq<char>, i32>
    decreases entries.len(),
{
    if entries.len() == 0 {
        Map::empty()
    } else {
        remembered(entries.drop_last()).insert(entries.last().0@, entries.last().1)
    }
}

impl View for Program {
    type V = ProgramView;

    closed spec fn view(&self) -> ProgramView {
        ProgramView {
            handle: self.handle,
            live: self.live,
            locations: remembered(self.locations@),
        }
    }
}

impl Program {
    #[verifier::type_invariant]
    spec fn inv(self) -> bool {
        &&& self.handle != 0
        &&& forall|i: int| 0 <= i < self.locations.len() ==> (#[trigger] self.locations[i]).1 >= -1
    }

    /// Wraps the native object of a link that succeeded.
    pub(crate) fn adopt(handle: u32) -> (program: Program)
        requires
            handle != 0,
        ensures
            program@ == ProgramView::linked(handle),
    {
        Program { handle, live: true, locations: Vec::new() }
    }

    /// The native program object, never null.
    pub fn handle(&self) -> (handle: u32)
        ensures
            handle == self@.handle,
            handle != 0,
    {
        proof {
            use_type_invariant(self);
        }
        self.handle
    }

    /// Whether the native object has not been released yet.
    pub fn is_live(&self) -> (live: bool)
        ensures
            live == self@.live,
    {
        self.live
    }

    /// The command that makes this program the active one. Issue it right
    /// before the draws that depend on it. A released program has nothing to
    /// activate.
    pub fn activate(&self) -> (command: Option<Command>)
        ensures
            optional_view(command) == self@.activate(),
    {
        if self.live {
            Some(Command::UseProgram { program: self.handle })
        } else {
            None
        }
    }

    /// Releases the native object: the first call returns the command that
    /// deletes it, every later call returns nothing and changes nothing.
    pub fn release(&mut self) -> (command: Option<Command>)
        ensures
            optional_view(command) == old(self)@.release_command(),
            final(self)@ == old(self)@.released(),
    {
        proof {
            use_type_invariant(&*self);
        }
        if self.live {
            self.live = false;
            Some(Command::DeleteProgram { program: self.handle })
        } else {
            None
        }
    }

    /// The location remembered for `name`, if it was looked up before.
    pub fn cached_location(&self, name: &str) -> (known: Option<i32>)
        ensures
            known is Some <==> self@.locations.contains_key(name@),
            known matches Some(location) ==> location == self@.locations[name@] && location >= -1,
    {
        proof {
            use_type_invariant(self);
        }
        let wanted = name.to_owned();
        let mut i: usize = self.locations.len();
        proof {
            assert(self.locations@.take(i as int) =~= self.locations@);
        }
        while i > 0
            invariant
                i <= self.locations.len(),
                wanted@ == name@,
                remembered(self.locations@).contains_key(name@) == remembered(
                    self.locations@.take(i as int),
                ).contains_key(name@),
                remembered(self.locations@).contains_key(name@) ==> remembered(
                    self.locations@,
                )[name@] == remembered(self.locations@.take(i as int))[name@],
                forall|k: int|
                    0 <= k < self.locations.len() ==> (#[trigger] self.locations[k]).1 >= -1,
            decreases i,
        {
            i = i - 1;
            proof {
                assert(self.locations@.take(i + 1).drop_last() =~= self.locations@.take(i as int));
            }
            if self.locations[i].0 == wanted {
                return Some(self.locations[i].1);
            }
        }
        None
    }

    /// Looks up the location of the uniform called `name`: the remembered
    /// one, or the question to put to the device. Never fails; a uniform that
    /// the program lacks has location -1.
    pub fn uniform_location(&self, name: &str) -> (lookup: UniformLookup)
        ensures
            lookup@ == self@.lookup(name@),
    {
        match self.cached_location(name) {
            Some(location) => UniformLookup::Known(location),
            None => if self.live {
                UniformLookup::Ask(
                    Command::QueryUniformLocation { program: self.handle, name: name.to_owned() },
                )
            } else {
                UniformLookup::Known(-1)
            },
        }
    }

    /// Remembers the device's reply to a lookup of `name` and returns the
    /// location, -1 if the reply names none.
    pub fn record_location(&mut self, name: &str, reply: &Reply) -> (location: i32)
        ensures
            final(self)@ == old(self)@.record(name@, reply@),
            location == final(self)@.location(name@),
            location >= -1,
    {
        proof {
            use_type_invariant(&*self);
        }
        match self.cached_location(name) {
            Some(location) => location,
            None => if self.live {
                let location = reply.location();
                let mut entries: Vec<(String, i32)> = Vec::new();
                std::mem::swap(&mut entries, &mut self.locations);
                let ghost before = entries@;
                entries.push((name.to_owned(), location));
                proof {
                    assert(entries@.drop_last() =~= before);
                }
                self.locations = entries;
                location
            } else {
                -1
            },
        }
    }
}

/// A program as a link yields it is well-formed, and releasing it or telling
/// it a uniform's location keeps it so.
pub proof fn program_stays_well_formed(
    program: ProgramView,
    handle: u32,
    name: Seq<char>,
    reply: ReplyView,
)
    ensures
        handle != 0 ==> ProgramView::linked(handle).wf(),
        program.wf() ==> program.released().wf(),
        program.wf() ==> program.record(name, reply).wf(),
        program.wf() ==> program.location(name) >= -1,
{
}

/// Releasing a program twice deletes its native object once: the second
/// release issues nothing and leaves the program as the first left it.
pub proof fn release_is_idempotent(program: ProgramView)
    ensures
        program.released().release_command() is None,
        program.released().released() == program.released(),
        program.live ==> program.release_command() == Some(
            CommandView::DeleteProgram { program: program.handle },
        ),
{
}

/// A released program issues no command at all: it is neither activated nor
/// asked for a uniform.
pub proof fn released_program_is_silent(program: ProgramView, name: Seq<char>)
    ensures
        program.released().activate() is None,
        program.released().lookup(name) is Known,
        program.released().record(name, ReplyView::Done) == program.released(),
{
}

/// Once the device has answered for a name, the program answers from memory,
/// with the location the device gave or -1, and the locations of other names
/// are as they were.
pub proof fn recorded_location_is_kept(
    program: ProgramView,
    name: Seq<char>,
    reply: ReplyView,
    other: Seq<char>,
)
    requires
        program.wf(),
        program.live,
        !program.locations.contains_key(name),
        other != name,
    ensures
        program.record(name, reply).wf(),
        program.record(name, reply).lookup(name) == UniformLookupView::Known(reply.location()),
        reply.location() >= -1,
        program.record(name, reply).record(name, ReplyView::Value(0)) == program.record(
            name,
            reply,
        ),
        program.record(name, reply).lookup(other) == program.lookup(other),
{
}

} // verus!
