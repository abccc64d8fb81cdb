//! The way in: the table that routes an operation, which the host pushes into the guest,
//! to the handler that is registered for it.
//!
//! A table is built once, by registering handlers, and then only read. It holds one
//! handler for an operation: registering a second one for the same operation replaces
//! the first. An operation that nothing is registered for is a bad dispatch, never a
//! silent success.

use crate::errors::{new, Error, ErrorKind, ErrorView};
use crate::transport::outcome;
use vstd::prelude::*;

verus! {

/// The handlers of a guest, by the operation that each one serves.
pub struct DispatchTable<H> {
    operations: Vec<String>,
    handlers: Vec<H>,
}

/// The names of the operations in registration order.
spec fn names(operations: Seq<String>) -> Seq<Seq<char>> {
    operations.map_values(|operation: String| operation@)
}

impl<H> View for DispatchTable<H> {
    type V = Map<Seq<char>, H>;

    /// The table as a mapping from the name of an operation to its handler.
    closed spec fn view(&self) -> Map<Seq<char>, H> {
        Map::new(
            |name: Seq<char>| names(self.operations@).contains(name),
            |name: Seq<char>| self.handlers@[names(self.operations@).index_of(name)],
        )
    }
}

/// Registering handlers for two different operations gives the same table whichever is
/// registered first.
pub proof fn lemma_registration_order_is_irrelevant<H>(
    table: Map<Seq<char>, H>,
    first: Seq<char>,
    first_handler: H,
    second: Seq<char>,
    second_handler: H,
)
    requires
        first != second,
    ensures
        table.insert(first, first_handler).insert(second, second_handler) == table.insert(
            second,
            second_handler,
        ).insert(first, first_handler),
{
    assert(table.insert(first, first_handler).insert(second, second_handler) =~= table.insert(
        second,
        second_handler,
    ).insert(first, first_handler));
}

/// Of two handlers that are registered for the same operation, the table keeps the second.
pub proof fn lemma_last_registration_wins<H>(
    table: Map<Seq<char>, H>,
    operation: Seq<char>,
    first_handler: H,
    second_handler: H,
)
    ensures
        table.insert(operation, first_handler).insert(operation, second_handler) == table.insert(
            operation,
            second_handler,
        ),
        table.insert(operation, first_handler).insert(operation, second_handler)[operation]
            == second_handler,
{
    assert(table.insert(operation, first_handler).insert(operation, second_handler)
        =~= table.insert(operation, second_handler));
}

impl<H> DispatchTable<H> {
    /// Every operation has its handler, and no operation is held twice.
    #[verifier::type_invariant]
    spec fn well_formed(&self) -> bool {
        &&& self.operations@.len() == self.handlers@.len()
        &&& names(self.operations@).no_duplicates()
    }

    /// A table without handlers: every operation is a bad dispatch.
    pub fn new() -> (table: Self)
        ensures
            table@ == Map::<Seq<char>, H>::empty(),
    {
        let table = DispatchTable { operations: Vec::new(), handlers: Vec::new() };
        assert(table@ =~= Map::<Seq<char>, H>::empty());
        table
    }

    /// The place of an operation in the table, if a handler is registered for it.
    fn find(&self, operation: &str) -> (at: Option<usize>)
        ensures
            match at {
                Some(i) => i < self.operations@.len() && self.operations@[i as int]@ == operation@,
                None => !names(self.operations@).contains(operation@),
            },
    {
        let wanted = operation.to_string();
        let mut i: usize = 0;
        while i < self.operations.len()
            invariant
                i <= self.operations@.len(),
                wanted@ == operation@,
                forall|j: int| 0 <= j < i ==> self.operations@[j]@ != operation@,
            decreases self.operations@.len() - i,
        {
            if self.operations[i] == wanted {
                return Some(i);
            }
            i += 1;
        }
        assert(!names(self.operations@).contains(operation@)) by {
            if names(self.operations@).contains(operation@) {
                let j = choose|j: int|
                    0 <= j < names(self.operations@).len() && names(self.operations@)[j]
                        == operation@;
                assert(self.operations@[j]@ == operation@);
            }
        }
        None
    }

    /// Registers `handler` for `operation`. A handler that was registered for the same
    /// operation before is dropped; the handlers of other operations stay.
    pub fn register(self, operation: &str, handler: H) -> (table: Self)
        ensures
            table@ == self@.insert(operation@, handler),
    {
        proof {
            use_type_invariant(&self);
        }
        let at = self.find(operation);
        let mut operations = self.operations;
        let mut handlers = self.handlers;
        let ghost before_names = names(operations@);
        let ghost before_handlers = handlers@;
        match at {
            Some(i) => {
                handlers.set(i, handler);
            },
            None => {
                operations.push(operation.to_string());
                handlers.push(handler);
                assert(names(operations@) =~= before_names.push(operation@));
                assert forall|j: int, k: int|
                    0 <= j < names(operations@).len() && 0 <= k < names(operations@).len() && j
                        != k implies names(operations@)[j] != names(operations@)[k] by {
                    if j < before_names.len() && k < before_names.len() {
                        assert(before_names[j] != before_names[k]);
                    } else if j < before_names.len() {
                        assert(before_names.contains(before_names[j]));
                    } else {
                        assert(before_names.contains(before_names[k]));
                    }
                }
            },
        }
        let table = DispatchTable { operations, handlers };
        proof {
            let after_names = names(table.operations@);
            assert forall|name: Seq<char>| #[trigger]
                table@.contains_key(name) == self@.insert(operation@, handler).contains_key(
                    name,
                ) by {
                match at {
                    Some(i) => {
                        assert(after_names =~= before_names);
                        assert(before_names[i as int] == operation@);
                    },
                    None => {
                        if before_names.contains(name) {
                            let j = before_names.index_of(name);
                            assert(after_names[j] == name);
                        }
                        if after_names.contains(name) && name != operation@ {
                            let j = after_names.index_of(name);
                            assert(before_names[j] == name);
                        }
                        assert(after_names[before_names.len() as int] == operation@);
                    },
                }
            }
            assert forall|name: Seq<char>| #[trigger]
                table@.contains_key(name) implies table@[name] == self@.insert(
                operation@,
                handler,
            )[name] by {
                let j = after_names.index_of(name);
                match at {
                    Some(i) => {
                        assert(after_names =~= before_names);
                        if name == operation@ {
                            assert(before_names[i as int] == name);
                            assert(j == i);
                        } else {
                            assert(j != i);
                        }
                    },
                    None => {
                        if name == operation@ {
                            assert(after_names[before_names.len() as int] == name);
                            assert(j == before_names.len());
                        } else {
                            assert(j < before_names.len());
                            assert(before_names[j] == name);
                            assert(before_names.index_of(name) == j);
                        }
                    },
                }
            }
            assert(table@ =~= self@.insert(operation@, handler));
        }
        table
    }

    /// Tells whether a handler is registered for `operation`.
    pub fn is_registered(&self, operation: &str) -> (r: bool)
        ensures
            r == self@.contains_key(operation@),
    {
        match self.find(operation) {
            Some(i) => {
                assert(names(self.operations@)[i as int] == operation@);
                true
            },
            None => false,
        }
    }

    /// Finds the handler that is registered for `operation`, by exact match of the name.
    /// Where there is none, the error is a bad dispatch that carries the name.
    pub fn lookup(&self, operation: &str) -> (r: Result<&H, Error>)
        ensures
            match r {
                Ok(handler) => self@.contains_key(operation@) && *handler == self@[operation@],
                Err(e) => !self@.contains_key(operation@) && e@ == ErrorView::BadDispatch(
                    operation@,
                ),
            },
    {
        proof {
            use_type_invariant(self);
        }
        match self.find(operation) {
            Some(i) => {
                assert(names(self.operations@)[i as int] == operation@);
                assert(names(self.operations@).index_of(operation@) == i);
                Ok(&self.handlers[i])
            },
            None => Err(new(ErrorKind::BadDispatch(operation.to_string()))),
        }
    }
}

impl<H> DispatchTable<H> {
    /// The single entry point for what the host pushes into the guest: finds the handler
    /// of `operation` and lets it answer `payload`, with `ctx` as its gateway to the host.
    /// The handler's answer, bytes or error, is the answer. Where no handler is
    /// registered, the answer is a bad dispatch that carries the operation's name, and no
    /// handler runs.
    pub fn dispatch<C>(&self, ctx: &C, operation: &str, payload: &[u8]) -> (r: Result<
        Vec<u8>,
        Error,
    >) where H: Fn(&C, &[u8]) -> Result<Vec<u8>, Error>
        requires
            self@.contains_key(operation@) ==> call_requires(self@[operation@], (ctx, payload)),
        ensures
            self@.contains_key(operation@) ==> call_ensures(
                self@[operation@],
                (ctx, payload),
                r,
            ),
            !self@.contains_key(operation@) ==> outcome(r) == Err::<Seq<u8>, ErrorView>(
                ErrorView::BadDispatch(operation@),
            ),
    {
        match self.lookup(operation) {
            Ok(handler) => handler(ctx, payload),
            Err(e) => Err(e),
        }
    }
}

/// Lets a handler of decoded requests answer what the codec made of an inbound payload.
/// A payload that the codec refused never reaches the handler: its words come back as a
/// serialization failure. Otherwise the handler's answer is the answer.
pub fn answer_decoded<C, T, F>(handler: &F, ctx: &C, decoded: Result<T, String>) -> (r: Result<
    Vec<u8>,
    Error,
>) where F: Fn(&C, T) -> Result<Vec<u8>, Error>
    requires
        decoded matches Ok(request) ==> call_requires(handler, (ctx, request)),
    ensures
        decoded matches Ok(request) ==> call_ensures(handler, (ctx, request), r),
        decoded matches Err(words) ==> outcome(r) == Err::<Seq<u8>, ErrorView>(
            ErrorView::Serialization(words@),
        ),
{
    match decoded {
        Ok(request) => handler(ctx, request),
        Err(words) => Err(new(ErrorKind::Serialization(words))),
    }
}

} // verus!
