//! Effects that may have failed to be made.

use vstd::prelude::*;

use crate::effect::Effect;

verus! {

/// The name of the system whose effect is being applied.
#[derive(Clone, Debug, Default, PartialEq, Eq)]
pub struct SystemName {
    /// The name.
    pub name: String,
}

/// The ticks at which the system whose effect is being applied ran.
#[derive(Clone, Copy, Debug, Default, PartialEq, Eq)]
pub struct SystemChangeTick {
    /// The tick at which the system ran the time before.
    pub last_run: u32,
    /// The tick at which the system runs now.
    pub this_run: u32,
}

/// Where an error came up.
#[derive(Clone, Debug, PartialEq, Eq)]
pub enum ErrorContext {
    /// The error came up in a system.
    System {
        /// The name of the system that failed.
        name: String,
        /// The tick at which the system ran the time before.
        last_run: u32,
    },
}

/// The context that an error is handled with when it comes up in the system with this
/// name and these ticks.
pub open spec fn system_context(name: SystemName, tick: SystemChangeTick) -> ErrorContext {
    ErrorContext::System { name: name.name, last_run: tick.last_run }
}

/// [`Effect`] that causes the `Ok` effect, or handles the `Err` with a custom handler.
///
/// The handler is given the error and the context it came up in. The state of the `Ok`
/// effect is not touched when the error is handled.
///
/// Using a plain `Result` as an effect works too, but uses the [`DefaultErrorHandler`].
///
/// Can be constructed with [`affect_or_handle`].
#[derive(Debug, PartialEq, Eq)]
pub struct AffectOrHandle<Ef, Er, Handler> {
    /// The result to be affected or handled.
    pub result: Result<Ef, Er>,
    /// The handler to use in the `Err` case.
    pub handler: Handler,
}

impl<Ef: Clone, Er: Clone, Handler: Clone> Clone for AffectOrHandle<Ef, Er, Handler> {
    fn clone(&self) -> Self {
        let result = match &self.result {
            Ok(effect) => Ok(effect.clone()),
            Err(error) => Err(error.clone()),
        };
        AffectOrHandle { result, handler: self.handler.clone() }
    }
}

impl<Ef: Copy, Er: Copy, Handler: Copy> Copy for AffectOrHandle<Ef, Er, Handler> {}

/// Construct a new [`AffectOrHandle`] [`Effect`].
pub fn affect_or_handle<Ef, Er, Handler>(result: Result<Ef, Er>, handler: Handler) -> (effect:
    AffectOrHandle<Ef, Er, Handler>)
    ensures
        effect.result == result,
        effect.handler == handler,
{
    AffectOrHandle { result, handler }
}

impl<Ef, Er, Handler> AffectOrHandle<Ef, Er, Handler> {
    /// Whether `mapped` can come of mapping the `Ok` effect with `f`: an `Ok` effect is the
    /// one that `f` made of this one, an error and the handler are kept.
    pub open spec fn maps_to<Ef2, F: FnOnce(Ef) -> Ef2>(
        self,
        f: F,
        mapped: AffectOrHandle<Ef2, Er, Handler>,
    ) -> bool {
        &&& mapped.handler == self.handler
        &&& match self.result {
            Ok(effect) => mapped.result is Ok && call_ensures(f, (effect,), mapped.result->Ok_0),
            Err(error) => mapped.result == Err::<Ef2, Er>(error),
        }
    }

    /// Maps the `Ok` effect with `f`, and keeps an error and the handler as they are.
    pub fn map<Ef2, F: FnOnce(Ef) -> Ef2>(self, f: F) -> (mapped: AffectOrHandle<Ef2, Er, Handler>)
        requires
            self.result is Ok ==> call_requires(f, (self.result->Ok_0,)),
        ensures
            self.maps_to(f, mapped),
    {
        let AffectOrHandle { result, handler } = self;
        match result {
            Ok(effect) => AffectOrHandle { result: Ok(f(effect)), handler },
            Err(error) => AffectOrHandle { result: Err(error), handler },
        }
    }
}

impl<Ef, Er, Handler> Effect for AffectOrHandle<Ef, Er, Handler> where
    Ef: Effect,
    Handler: FnOnce(Er, ErrorContext),
 {
    type MutParam = (Ef::MutParam, SystemName, SystemChangeTick);

    open spec fn applies_to(self, param: Self::MutParam) -> bool {
        match self.result {
            Ok(effect) => effect.applies_to(param.0),
            Err(error) => call_requires(self.handler, (error, system_context(param.1, param.2))),
        }
    }

    open spec fn affects(self, before: Self::MutParam, after: Self::MutParam) -> bool {
        match self.result {
            Ok(effect) => {
                &&& effect.affects(before.0, after.0)
                &&& after.1 == before.1
                &&& after.2 == before.2
            },
            Err(error) => {
                &&& after == before
                &&& call_ensures(self.handler, (error, system_context(before.1, before.2)), ())
            },
        }
    }

    fn affect(self, param: &mut Self::MutParam) {
        match self.result {
            Ok(ef) => ef.affect(&mut param.0),
            Err(er) => (self.handler)(
                er,
                ErrorContext::System { name: param.1.name.clone(), last_run: param.2.last_run },
            ),
        }
    }
}

/// What [`AffectOrHandle`] does, written out for an effect whose handler is known.
pub proof fn lemma_affect_or_handle<Ef, Er, Handler>(
    effect: AffectOrHandle<Ef, Er, Handler>,
    before: (Ef::MutParam, SystemName, SystemChangeTick),
    after: (Ef::MutParam, SystemName, SystemChangeTick),
) where Ef: Effect, Handler: FnOnce(Er, ErrorContext)
    ensures
        effect.applies_to(before) <==> match effect.result {
            Ok(ok) => ok.applies_to(before.0),
            Err(error) => call_requires(
                effect.handler,
                (error, system_context(before.1, before.2)),
            ),
        },
        effect.affects(before, after) <==> match effect.result {
            Ok(ok) => ok.affects(before.0, after.0) && after.1 == before.1 && after.2 == before.2,
            Err(error) => after == before && call_ensures(
                effect.handler,
                (error, system_context(before.1, before.2)),
                (),
            ),
        },
{
}

/// What is done with the error of a plain `Result` that is used as an effect.
#[derive(Clone, Copy, Debug, PartialEq, Eq, Structural)]
pub enum DefaultErrorHandler {
    /// The error stops the program.
    Panic,
    /// The error is logged at the `error` level.
    Error,
    /// The error is logged at the `warn` level.
    Warn,
    /// The error is logged at the `info` level.
    Info,
    /// The error is logged at the `debug` level.
    Debug,
    /// The error is logged at the `trace` level.
    Trace,
    /// The error is dropped.
    Ignore,
}

impl Default for DefaultErrorHandler {
    fn default() -> (handler: Self)
        ensures
            handler == DefaultErrorHandler::Panic,
    {
        DefaultErrorHandler::Panic
    }
}

impl DefaultErrorHandler {
    /// Whether the program goes on after an error.
    pub open spec fn continues(self) -> bool {
        self != DefaultErrorHandler::Panic
    }

    /// The handler in force: the one that was set, and [`DefaultErrorHandler::Panic`]
    /// where none was.
    pub open spec fn in_force(set: Option<DefaultErrorHandler>) -> DefaultErrorHandler {
        match set {
            Some(handler) => handler,
            None => DefaultErrorHandler::Panic,
        }
    }

    /// Handles an error that came up in `context`.
    ///
    /// Logging leaves no trace in the state that effects change, so a handler that lets
    /// the program go on has nothing left to do here. An error must not be handed to the
    /// handler that stops the program.
    fn handle<Er>(self, _error: Er, _context: ErrorContext)
        requires
            self.continues(),
    {
        match self {
            DefaultErrorHandler::Panic => vstd::pervasive::unreached(),
            _ => {},
        }
    }
}

/// The `Ok` effect, or the error handled by the [`DefaultErrorHandler`] in force.
impl<Ef, Er> Effect for Result<Ef, Er> where Ef: Effect {
    type MutParam = (
        Option<DefaultErrorHandler>,
        (Ef::MutParam, SystemName, SystemChangeTick),
    );

    open spec fn applies_to(self, param: Self::MutParam) -> bool {
        match self {
            Ok(effect) => effect.applies_to(param.1.0),
            Err(_) => DefaultErrorHandler::in_force(param.0).continues(),
        }
    }

    open spec fn affects(self, before: Self::MutParam, after: Self::MutParam) -> bool {
        match self {
            Ok(effect) => {
                &&& effect.affects(before.1.0, after.1.0)
                &&& after.0 == before.0
                &&& after.1.1 == before.1.1
                &&& after.1.2 == before.1.2
            },
            Err(_) => after == before,
        }
    }

    fn affect(self, param: &mut Self::MutParam) {
        let default_error_handler = match param.0 {
            Some(handler) => handler,
            None => DefaultErrorHandler::default(),
        };
        match self {
            Ok(ef) => ef.affect(&mut param.1.0),
            Err(er) => default_error_handler.handle(
                er,
                ErrorContext::System {
                    name: param.1.1.name.clone(),
                    last_run: param.1.2.last_run,
                },
            ),
        }
    }
}

} // verus!
