//! Props: the declarative recipe for an actor.
//!
//! A `Props` bundles everything a spawn needs: the mailbox configuration, the
//! supervisor strategy that governs the actor's own failures, and the ordered
//! middleware and hook lists. User-supplied callables — producers, receivers,
//! middleware bodies, init hooks — run outside the engine and are named here
//! by tokens; what the engine owns, and what is verified, is which of them
//! run and in which order.
//!
//! Middleware composition follows one rule: the first middleware added is the
//! outermost caller, so the invocation order of a chain is exactly the order
//! of registration, ending at the terminal.

use vstd::prelude::*;

use crate::strategy_one_for_one::OneForOneStrategy;

verus! {

/// The default number of user messages one mailbox turn may deliver.
pub const DEFAULT_THROUGHPUT: usize = 300;

/// An actor built from a bare receive callable, named by its token.
#[derive(Debug, Clone, Copy, PartialEq, Eq, Structural)]
pub struct ActorReceiverActor(pub u64);

impl ActorReceiverActor {
    /// Wraps the receive callable named by `actor_receiver`.
    pub fn new(actor_receiver: u64) -> (r: Self)
        ensures
            r == ActorReceiverActor(actor_receiver),
    {
        ActorReceiverActor(actor_receiver)
    }
}

/// One configuration step for a `Props` under construction.
#[derive(Debug, Clone)]
pub enum PropsOption {
    /// Append init hooks, run right after the process is registered.
    OnInit(Vec<u64>),
    /// Replace the actor producer.
    ActorProducer(u64),
    /// Replace the mailbox configuration.
    MailboxProducer { throughput: usize, bound: Option<usize> },
    /// Set the guardian strategy used when this actor has no parent.
    Guardian(OneForOneStrategy),
    /// Set the strategy a supervisor applies when this actor fails.
    SupervisorStrategy(OneForOneStrategy),
    /// Append receiver middleware, outermost first.
    ReceiverMiddlewares(Vec<u64>),
    /// Append sender middleware, outermost first.
    SenderMiddlewares(Vec<u64>),
    /// Append spawn middleware.
    SpawnMiddlewares(Vec<u64>),
    /// Append context decorators.
    ContextDecorators(Vec<u64>),
}

/// The abstract content of a props bundle.
pub struct PropsView {
    pub producer: Option<u64>,
    pub mailbox_throughput: nat,
    pub mailbox_bound: Option<nat>,
    pub guardian_strategy: Option<OneForOneStrategy>,
    pub supervisor_strategy: Option<OneForOneStrategy>,
    pub receiver_middleware: Seq<u64>,
    pub sender_middleware: Seq<u64>,
    pub spawn_middleware: Seq<u64>,
    pub context_decorator: Seq<u64>,
    pub on_init: Seq<u64>,
}

/// The immutable bundle of options an actor is spawned from.
#[derive(Debug, Clone)]
pub struct Props {
    pub producer: Option<u64>,
    pub mailbox_throughput: usize,
    pub mailbox_bound: Option<usize>,
    pub guardian_strategy: Option<OneForOneStrategy>,
    pub supervisor_strategy: Option<OneForOneStrategy>,
    pub receiver_middleware: Vec<u64>,
    pub sender_middleware: Vec<u64>,
    pub spawn_middleware: Vec<u64>,
    pub context_decorator: Vec<u64>,
    pub on_init: Vec<u64>,
}

impl View for Props {
    type V = PropsView;

    open spec fn view(&self) -> PropsView {
        PropsView {
            producer: self.producer,
            mailbox_throughput: self.mailbox_throughput as nat,
            mailbox_bound: match self.mailbox_bound {
                Some(b) => Some(b as nat),
                None => None,
            },
            guardian_strategy: self.guardian_strategy,
            supervisor_strategy: self.supervisor_strategy,
            receiver_middleware: self.receiver_middleware@,
            sender_middleware: self.sender_middleware@,
            spawn_middleware: self.spawn_middleware@,
            context_decorator: self.context_decorator@,
            on_init: self.on_init@,
        }
    }
}

/// What one option does to a props bundle: replacements overwrite, list
/// options append in order.
pub open spec fn spec_apply_option(v: PropsView, opt: PropsOption) -> PropsView {
    match opt {
        PropsOption::OnInit(hooks) => PropsView { on_init: v.on_init + hooks@, ..v },
        PropsOption::ActorProducer(p) => PropsView { producer: Some(p), ..v },
        PropsOption::MailboxProducer { throughput, bound } => PropsView {
            mailbox_throughput: throughput as nat,
            mailbox_bound: match bound {
                Some(b) => Some(b as nat),
                None => None,
            },
            ..v
        },
        PropsOption::Guardian(s) => PropsView { guardian_strategy: Some(s), ..v },
        PropsOption::SupervisorStrategy(s) => PropsView { supervisor_strategy: Some(s), ..v },
        PropsOption::ReceiverMiddlewares(mws) => PropsView {
            receiver_middleware: v.receiver_middleware + mws@,
            ..v
        },
        PropsOption::SenderMiddlewares(mws) => PropsView {
            sender_middleware: v.sender_middleware + mws@,
            ..v
        },
        PropsOption::SpawnMiddlewares(mws) => PropsView {
            spawn_middleware: v.spawn_middleware + mws@,
            ..v
        },
        PropsOption::ContextDecorators(ds) => PropsView {
            context_decorator: v.context_decorator + ds@,
            ..v
        },
    }
}

/// The bundle that applying a list of options yields, first option first.
pub open spec fn spec_configure(v: PropsView, opts: Seq<PropsOption>) -> PropsView
    decreases opts.len(),
{
    if opts.len() == 0 {
        v
    } else {
        spec_apply_option(spec_configure(v, opts.drop_last()), opts.last())
    }
}

/// Options that keep a bundle usable: a replaced mailbox still allows at
/// least one delivery per turn.
pub open spec fn options_wf(opts: Seq<PropsOption>) -> bool {
    forall|i: int|
        0 <= i < opts.len() ==> match #[trigger] opts[i] {
            PropsOption::MailboxProducer { throughput, .. } => throughput >= 1,
            _ => true,
        }
}

impl Props {
    /// A mailbox turn must be allowed at least one message.
    pub open spec fn wf(&self) -> bool {
        self.mailbox_throughput >= 1
    }

    /// The default bundle: no producer, unbounded mailbox at the default
    /// throughput, no middleware, no strategy overrides.
    pub fn new() -> (r: Self)
        ensures
            r.wf(),
            r@ == default_props_view(),
    {
        let r = Props {
            producer: None,
            mailbox_throughput: DEFAULT_THROUGHPUT,
            mailbox_bound: None,
            guardian_strategy: None,
            supervisor_strategy: None,
            receiver_middleware: Vec::new(),
            sender_middleware: Vec::new(),
            spawn_middleware: Vec::new(),
            context_decorator: Vec::new(),
            on_init: Vec::new(),
        };
        r
    }

    /// Appends init hooks.
    pub fn with_on_init(init: Vec<u64>) -> (r: PropsOption)
        ensures
            r == PropsOption::OnInit(init),
    {
        PropsOption::OnInit(init)
    }

    /// Replaces the actor producer.
    pub fn with_actor_producer(producer: u64) -> (r: PropsOption)
        ensures
            r == PropsOption::ActorProducer(producer),
    {
        PropsOption::ActorProducer(producer)
    }

    /// Uses a bare receive callable as the actor.
    pub fn with_actor_receiver(actor_receiver: u64) -> (r: PropsOption)
        ensures
            r == PropsOption::ActorProducer(actor_receiver),
    {
        PropsOption::ActorProducer(actor_receiver)
    }

    /// Replaces the mailbox configuration.
    pub fn with_mailbox_producer(throughput: usize, bound: Option<usize>) -> (r: PropsOption)
        requires
            throughput >= 1,
        ensures
            r == (PropsOption::MailboxProducer { throughput, bound }),
    {
        PropsOption::MailboxProducer { throughput, bound }
    }

    /// Sets the guardian strategy.
    pub fn with_guardian(guardian: OneForOneStrategy) -> (r: PropsOption)
        ensures
            r == PropsOption::Guardian(guardian),
    {
        PropsOption::Guardian(guardian)
    }

    /// Sets the supervisor strategy applied when this actor fails.
    pub fn with_supervisor_strategy(supervisor: OneForOneStrategy) -> (r: PropsOption)
        ensures
            r == PropsOption::SupervisorStrategy(supervisor),
    {
        PropsOption::SupervisorStrategy(supervisor)
    }

    /// Appends receiver middleware, outermost first.
    pub fn with_receiver_middlewares(middlewares: Vec<u64>) -> (r: PropsOption)
        ensures
            r == PropsOption::ReceiverMiddlewares(middlewares),
    {
        PropsOption::ReceiverMiddlewares(middlewares)
    }

    /// Appends sender middleware, outermost first.
    pub fn with_sender_middlewares(middlewares: Vec<u64>) -> (r: PropsOption)
        ensures
            r == PropsOption::SenderMiddlewares(middlewares),
    {
        PropsOption::SenderMiddlewares(middlewares)
    }

    /// Appends spawn middleware.
    pub fn with_spawn_middleware(middlewares: Vec<u64>) -> (r: PropsOption)
        ensures
            r == PropsOption::SpawnMiddlewares(middlewares),
    {
        PropsOption::SpawnMiddlewares(middlewares)
    }

    /// Appends context decorators.
    pub fn with_context_decorators(decorators: Vec<u64>) -> (r: PropsOption)
        ensures
            r == PropsOption::ContextDecorators(decorators),
    {
        PropsOption::ContextDecorators(decorators)
    }

    /// Applies one option to this bundle.
    fn apply_option(&mut self, opt: PropsOption)
        ensures
            final(self)@ == spec_apply_option(old(self)@, opt),
    {
        match opt {
            PropsOption::OnInit(mut hooks) => {
                self.on_init.append(&mut hooks);
            },
            PropsOption::ActorProducer(p) => {
                self.producer = Some(p);
            },
            PropsOption::MailboxProducer { throughput, bound } => {
                self.mailbox_throughput = throughput;
                self.mailbox_bound = bound;
            },
            PropsOption::Guardian(s) => {
                self.guardian_strategy = Some(s);
            },
            PropsOption::SupervisorStrategy(s) => {
                self.supervisor_strategy = Some(s);
            },
            PropsOption::ReceiverMiddlewares(mut mws) => {
                self.receiver_middleware.append(&mut mws);
            },
            PropsOption::SenderMiddlewares(mut mws) => {
                self.sender_middleware.append(&mut mws);
            },
            PropsOption::SpawnMiddlewares(mut mws) => {
                self.spawn_middleware.append(&mut mws);
            },
            PropsOption::ContextDecorators(mut ds) => {
                self.context_decorator.append(&mut ds);
            },
        }
    }

    /// Applies a list of options, first option first.
    pub fn configure(&mut self, opts: Vec<PropsOption>)
        requires
            old(self).wf(),
            options_wf(opts@),
        ensures
            final(self).wf(),
            final(self)@ == spec_configure(old(self)@, opts@),
    {
        let ghost orig = self@;
        let ghost all = opts@;
        let mut rest = opts;
        let n = rest.len();
        let mut i: usize = 0;
        while rest.len() > 0
            invariant
                i as int == all.len() - rest@.len(),
                i <= all.len(),
                n == all.len(),
                rest@ == all.skip(i as int),
                self.wf(),
                options_wf(all),
                self@ == spec_configure(orig, all.take(i as int)),
            decreases rest@.len(),
        {
            let opt = rest.remove(0);
            proof {
                assert(opt == all[i as int]);
                assert(rest@ =~= all.skip(i + 1 as int));
                assert(all.take(i + 1 as int).drop_last() =~= all.take(i as int));
                assert(all.take(i + 1 as int).last() == all[i as int]);
            }
            self.apply_option(opt);
            i = i + 1;
        }
        proof {
            assert(all.take(i as int) =~= all);
        }
    }

    /// Builds a bundle for the producer named by `f`, then applies `opts`.
    pub fn from_actor_producer_with_opts(f: u64, opts: Vec<PropsOption>) -> (r: Props)
        requires
            options_wf(opts@),
        ensures
            r.wf(),
            r@ == spec_configure(
                PropsView { producer: Some(f), ..default_props_view() },
                opts@,
            ),
    {
        let mut props = Props::new();
        props.producer = Some(f);
        props.configure(opts);
        props
    }

    /// Builds a bundle for the producer named by `f` with no options.
    pub fn from_actor_producer(f: u64) -> (r: Props)
        ensures
            r.wf(),
            r@ == (PropsView { producer: Some(f), ..default_props_view() }),
    {
        Props::from_actor_producer_with_opts(f, Vec::new())
    }

    /// Builds a bundle around a bare receive callable, then applies `opts`.
    pub fn from_actor_receiver_with_opts(f: u64, opts: Vec<PropsOption>) -> (r: Props)
        requires
            options_wf(opts@),
        ensures
            r.wf(),
            r@ == spec_configure(
                PropsView { producer: Some(f), ..default_props_view() },
                opts@,
            ),
    {
        Props::from_actor_producer_with_opts(f, opts)
    }

    /// Builds a bundle around a bare receive callable with no options.
    pub fn from_actor_receiver(f: u64) -> (r: Props)
        ensures
            r.wf(),
            r@ == (PropsView { producer: Some(f), ..default_props_view() }),
    {
        Props::from_actor_receiver_with_opts(f, Vec::new())
    }

    /// The strategy a supervisor applies when this actor fails; the default
    /// allows ten restarts within ten seconds.
    pub fn get_supervisor_strategy(&self) -> (r: OneForOneStrategy)
        ensures
            r == (match self@.supervisor_strategy {
                Some(s) => s,
                None => default_strategy(),
            }),
    {
        match &self.supervisor_strategy {
            Some(s) => *s,
            None => OneForOneStrategy {
                max_retries: 10,
                within_duration_millis: 10000,
                decider: crate::strategy_one_for_one::Directive::Restart,
            },
        }
    }

    /// The receiver middleware chain: the registered middleware in
    /// invocation order, or `None` when there is none.
    pub fn get_receiver_middleware_chain(&self) -> (r: Option<Vec<u64>>)
        ensures
            spec_chain_of(self@.receiver_middleware) == chain_view(r),
    {
        make_middleware_chain(&self.receiver_middleware)
    }

    /// The sender middleware chain, in invocation order.
    pub fn get_sender_middleware_chain(&self) -> (r: Option<Vec<u64>>)
        ensures
            spec_chain_of(self@.sender_middleware) == chain_view(r),
    {
        make_middleware_chain(&self.sender_middleware)
    }

    /// The spawn middleware chain, in invocation order.
    pub fn get_spawn_middleware_chain(&self) -> (r: Option<Vec<u64>>)
        ensures
            spec_chain_of(self@.spawn_middleware) == chain_view(r),
    {
        make_middleware_chain(&self.spawn_middleware)
    }

    /// The context decorator chain, in invocation order.
    pub fn get_context_decorator_chain(&self) -> (r: Option<Vec<u64>>)
        ensures
            spec_chain_of(self@.context_decorator) == chain_view(r),
    {
        make_middleware_chain(&self.context_decorator)
    }
}

/// The default props content.
pub open spec fn default_props_view() -> PropsView {
    PropsView {
        producer: None,
        mailbox_throughput: DEFAULT_THROUGHPUT as nat,
        mailbox_bound: None,
        guardian_strategy: None,
        supervisor_strategy: None,
        receiver_middleware: Seq::empty(),
        sender_middleware: Seq::empty(),
        spawn_middleware: Seq::empty(),
        context_decorator: Seq::empty(),
        on_init: Seq::empty(),
    }
}

/// The default supervision strategy: up to ten restarts within ten seconds.
pub open spec fn default_strategy() -> OneForOneStrategy {
    OneForOneStrategy {
        max_retries: 10,
        within_duration_millis: 10000,
        decider: crate::strategy_one_for_one::Directive::Restart,
    }
}

/// A chain's invocation order: the registered middleware in registration
/// order — the first registered is the outermost caller — or `None` when
/// nothing was registered.
pub open spec fn spec_chain_of(mws: Seq<u64>) -> Option<Seq<u64>> {
    if mws.len() == 0 {
        None
    } else {
        Some(mws)
    }
}

/// Reads a built chain abstractly.
pub open spec fn chain_view(r: Option<Vec<u64>>) -> Option<Seq<u64>> {
    match r {
        Some(v) => Some(v@),
        None => None,
    }
}

/// Composes a middleware chain: with nothing registered there is no chain;
/// otherwise the chain invokes the middleware in registration order, the
/// first registered outermost, ending at the terminal.
pub fn make_middleware_chain(middlewares: &Vec<u64>) -> (r: Option<Vec<u64>>)
    ensures
        chain_view(r) == spec_chain_of(middlewares@),
{
    if middlewares.len() == 0 {
        None
    } else {
        let mut chain: Vec<u64> = Vec::new();
        let mut i: usize = 0;
        while i < middlewares.len()
            invariant
                i <= middlewares.len(),
                chain@ == middlewares@.take(i as int),
            decreases middlewares.len() - i,
        {
            proof {
                assert(middlewares@.take(i + 1 as int) =~= middlewares@.take(i as int).push(
                    middlewares@[i as int],
                ));
            }
            chain.push(middlewares[i]);
            i = i + 1;
        }
        proof {
            assert(middlewares@.take(middlewares@.len() as int) =~= middlewares@);
        }
        Some(chain)
    }
}

} // verus!
