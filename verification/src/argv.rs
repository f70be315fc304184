//! Argument marshalling: turning the host-supplied sequence of byte strings
//! into the null-terminated, argv-style table the embedded engine expects.
//!
//! Each host argument becomes an owned byte string with a single terminating
//! null byte; the table ends with one sentinel slot, which stands for the
//! null pointer closing a conventional `argv` array.  An argument that
//! already contains a null byte cannot be represented this way and is
//! rejected before anything else happens.

use vstd::prelude::*;

verus! {

/// Does the byte string contain a null byte anywhere?
pub open spec fn has_nul(bytes: Seq<u8>) -> bool {
    exists|i: int| 0 <= i < bytes.len() && bytes[i] == 0u8
}

/// A well-formed argv entry: non-empty, ending in exactly one null byte,
/// with no null byte before it.
pub open spec fn nul_terminated(bytes: Seq<u8>) -> bool {
    &&& bytes.len() >= 1
    &&& bytes[bytes.len() - 1] == 0u8
    &&& forall|i: int| 0 <= i < bytes.len() - 1 ==> bytes[i] != 0u8
}

/// Every argument in the sequence is free of embedded null bytes.
pub open spec fn all_args_valid(args: Seq<Seq<u8>>) -> bool {
    forall|i: int| 0 <= i < args.len() ==> !has_nul(#[trigger] args[i])
}

/// Why marshalling failed.
#[derive(Debug, Clone, Copy, PartialEq, Eq, Structural)]
pub enum MarshalError {
    /// The argument at this index contains an embedded null byte.
    EmbeddedNul { index: usize },
}

/// One slot of the argv table: either an owned null-terminated argument, or
/// the sentinel that stands for the closing null pointer.
#[derive(Debug)]
pub enum ArgvSlot {
    Arg(Vec<u8>),
    Sentinel,
}

/// The marshalled argument table, owning every byte it references.
///
/// The engine may read the table at any point of its blocking run, so the
/// owner of an `ArgvTable` must keep it alive until the engine call returns;
/// ownership of the backing byte strings makes premature release a move
/// error rather than a runtime hazard.
#[derive(Debug)]
pub struct ArgvTable {
    /// The real arguments in host order, then one `Sentinel`.
    pub slots: Vec<ArgvSlot>,
}

impl ArgvTable {
    /// Shape of a marshalled table: at least the sentinel, the sentinel
    /// last, and every earlier slot a null-terminated argument.
    pub open spec fn wf(self) -> bool {
        &&& self.slots@.len() >= 1
        &&& self.slots@[self.slots@.len() - 1] is Sentinel
        &&& forall|i: int| 0 <= i < self.slots@.len() - 1
                ==> ((#[trigger] self.slots@[i]) matches ArgvSlot::Arg(arg) && nul_terminated(arg@))
    }

    /// The argument payloads, in order, without their terminating null bytes.
    pub open spec fn payloads(self) -> Seq<Seq<u8>> {
        Seq::new(
            (self.slots@.len() - 1) as nat,
            |i: int| self.slots@[i]->Arg_0@.drop_last(),
        )
    }

    /// The argument count the engine is told: real entries only, the
    /// sentinel excluded.
    pub fn argc(&self) -> (count: usize)
        ensures
            self.slots@.len() >= 1 ==> count == self.slots@.len() - 1,
            self.slots@.len() == 0 ==> count == 0,
            self.wf() ==> count == self@.len(),
    {
        if self.slots.len() == 0 {
            0
        } else {
            self.slots.len() - 1
        }
    }
}

impl View for ArgvTable {
    type V = Seq<Seq<u8>>;

    open spec fn view(&self) -> Seq<Seq<u8>> {
        self.payloads()
    }
}

/// Copy one argument and append its terminating null byte, or report the
/// position of an embedded null byte.
fn terminate_arg(arg: &Vec<u8>) -> (result: Result<Vec<u8>, usize>)
    ensures
        match result {
            Ok(owned) => !has_nul(arg@) && owned@ == arg@.push(0u8),
            Err(at) => at < arg@.len() && arg@[at as int] == 0u8,
        },
{
    let mut owned: Vec<u8> = Vec::new();
    let mut j: usize = 0;
    while j < arg.len()
        invariant
            j <= arg@.len(),
            owned@ == arg@.take(j as int),
            forall|k: int| 0 <= k < j ==> arg@[k] != 0u8,
        decreases arg@.len() - j,
    {
        let byte = arg[j];
        if byte == 0u8 {
            return Err(j);
        }
        owned.push(byte);
        j += 1;
    }
    assert(owned@ == arg@);
    owned.push(0u8);
    Ok(owned)
}

/// Build the argv table from the host arguments.
///
/// Succeeds exactly when no argument embeds a null byte; the table then
/// carries the same payloads in the same order, each null-terminated, closed
/// by the sentinel slot.  On failure nothing is built and the error names
/// the first offending argument.
pub fn marshal_args(args: &Vec<Vec<u8>>) -> (result: Result<ArgvTable, MarshalError>)
    ensures
        result is Ok <==> all_args_valid(args.deep_view()),
        result matches Ok(table) ==> {
            &&& table.wf()
            &&& table@ == args.deep_view()
            &&& table.slots@.len() == args@.len() + 1
        },
        result matches Err(MarshalError::EmbeddedNul { index }) ==> {
            &&& index < args@.len()
            &&& has_nul(args.deep_view()[index as int])
            &&& forall|j: int| 0 <= j < index ==> !has_nul(#[trigger] args.deep_view()[j])
        },
{
    let ghost goal: Seq<Seq<u8>> = args.deep_view();
    let mut slots: Vec<ArgvSlot> = Vec::new();
    let mut i: usize = 0;
    while i < args.len()
        invariant
            goal == args.deep_view(),
            i <= args@.len(),
            slots@.len() == i,
            forall|k: int| 0 <= k < i
                ==> ((#[trigger] slots@[k]) matches ArgvSlot::Arg(arg) && arg@ == goal[k].push(0u8)),
            forall|k: int| 0 <= k < i ==> !has_nul(#[trigger] goal[k]),
        decreases args@.len() - i,
    {
        match terminate_arg(&args[i]) {
            Ok(owned) => {
                assert(goal[i as int] =~= args@[i as int]@);
                assert(owned@ == goal[i as int].push(0u8));
                slots.push(ArgvSlot::Arg(owned));
            },
            Err(at) => {
                assert(goal[i as int] =~= args@[i as int]@);
                assert(goal[i as int][at as int] == 0u8);
                assert(has_nul(goal[i as int]));
                return Err(MarshalError::EmbeddedNul { index: i });
            },
        }
        i += 1;
    }
    slots.push(ArgvSlot::Sentinel);
    let table = ArgvTable { slots };
    assert forall|k: int| 0 <= k < table.slots@.len() - 1 implies
        ((#[trigger] table.slots@[k]) matches ArgvSlot::Arg(arg) && nul_terminated(arg@)) by {
        assert(table.slots@[k]->Arg_0@ == goal[k].push(0u8));
        assert(!has_nul(goal[k]));
    }
    assert(table.wf());
    assert(table@ =~~= goal) by {
        assert forall|k: int| 0 <= k < goal.len() implies table@[k] =~= goal[k] by {
            assert(table.slots@[k]->Arg_0@ == goal[k].push(0u8));
            assert(goal[k].push(0u8).drop_last() =~= goal[k]);
        }
    }
    Ok(table)
}

} // verus!
