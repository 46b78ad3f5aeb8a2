//! Activation and focus state of one TIP instance.
//!
//! Every activation and every focus change advances a generation counter;
//! tokens and tickets taken from an older generation are refused, so a
//! callback that raced with deactivation or a newer focus change cannot
//! install stale resources. The interface handles themselves (thread
//! manager, keystroke manager, event source, document manager, context) are
//! type parameters: this state only stores and hands them back.

use vstd::prelude::*;

verus! {

/// Apply `operation` to `resource`, then release the resource.
pub fn run_before_drop<T, F: FnOnce(&T)>(resource: T, operation: F)
    requires
        operation.requires((&resource,)),
    ensures
        operation.ensures((&resource,), ()),
{
    operation(&resource);
}

/// Undo a rejected activation: unadvise the thread sink, then the key sink,
/// then release the resource.
pub fn rollback_before_drop<T, F: FnOnce(&T), G: FnOnce(&T)>(
    resource: T,
    unadvise_thread: F,
    unadvise_key: G,
)
    requires
        unadvise_thread.requires((&resource,)),
        unadvise_key.requires((&resource,)),
    ensures
        unadvise_thread.ensures((&resource,), ()),
        unadvise_key.ensures((&resource,), ()),
{
    unadvise_thread(&resource);
    unadvise_key(&resource);
}

/// The generation that follows `g`, wrapping at the end of the range.
pub open spec fn next_generation(g: u64) -> u64 {
    if g == u64::MAX {
        0
    } else {
        (g + 1) as u64
    }
}

fn advance(g: u64) -> (n: u64)
    ensures
        n == next_generation(g),
{
    if g == u64::MAX {
        0
    } else {
        g + 1
    }
}

/// Proof that an activation began in a given generation.
#[derive(Clone, Copy, Debug, PartialEq, Eq, Structural)]
pub struct ActivationToken(u64);

impl ActivationToken {
    pub closed spec fn generation(self) -> u64 {
        self.0
    }
}

/// Proof that a focus update began in a given focus generation.
#[derive(Clone, Copy, Debug, PartialEq, Eq, Structural)]
pub struct FocusTicket(u64);

impl FocusTicket {
    pub closed spec fn generation(self) -> u64 {
        self.0
    }
}

/// What a completed activation installs.
pub struct ActivationResources<M, K, S, D, C> {
    pub thread_mgr: M,
    pub keystroke_mgr: K,
    pub source: S,
    pub thread_sink_cookie: u32,
    pub focused_document: Option<D>,
    pub focused_document_identity: Option<usize>,
    pub focused_context: Option<C>,
}

/// The focused document, its identity and its top context.
pub struct FocusResources<D, C> {
    pub document: Option<D>,
    pub document_identity: Option<usize>,
    pub context: Option<C>,
}

/// What deactivation hands back for release.
pub struct DeactivationResources<M, K, S, D, C> {
    pub client_id: u32,
    pub thread_mgr: Option<M>,
    pub keystroke_mgr: Option<K>,
    pub source: Option<S>,
    pub thread_sink_cookie: Option<u32>,
    pub focused_document: Option<D>,
    pub focused_context: Option<C>,
}

/// The abstract state of an `ApartmentState`.
pub struct ApartmentModel<M, K, S, D, C> {
    pub activation_generation: u64,
    pub focus_generation: u64,
    pub client_id: u32,
    pub activation_in_progress: bool,
    pub key_admission_enabled: bool,
    pub thread_mgr: Option<M>,
    pub keystroke_mgr: Option<K>,
    pub source: Option<S>,
    pub thread_sink_cookie: Option<u32>,
    pub focused_document: Option<D>,
    pub focused_document_identity: Option<usize>,
    pub focused_context: Option<C>,
    /// Focus presence recorded without resources (see `note_focus_presence`).
    pub focus_noted: bool,
}

impl<M, K, S, D, C> ApartmentModel<M, K, S, D, C> {
    pub open spec fn is_activated(self) -> bool {
        self.thread_mgr is Some
    }

    pub open spec fn can_complete(self, token: ActivationToken) -> bool {
        self.activation_in_progress && self.activation_generation == token.generation()
    }

    pub open spec fn document_matches(self, identity: Option<usize>) -> bool {
        identity is Some && self.focused_document_identity == identity
    }

    pub open spec fn has_focus(self) -> bool {
        self.focus_noted || (self.focused_document is Some && self.focused_context is Some)
    }
}

/// State owned by a TIP activation.
pub struct ApartmentState<M, K, S, D, C> {
    activation_generation: u64,
    focus_generation: u64,
    client_id: u32,
    activation_in_progress: bool,
    key_admission_enabled: bool,
    thread_mgr: Option<M>,
    keystroke_mgr: Option<K>,
    source: Option<S>,
    thread_sink_cookie: Option<u32>,
    focused_document: Option<D>,
    focused_document_identity: Option<usize>,
    focused_context: Option<C>,
    focus_noted: bool,
}

impl<M, K, S, D, C> View for ApartmentState<M, K, S, D, C> {
    type V = ApartmentModel<M, K, S, D, C>;

    closed spec fn view(&self) -> ApartmentModel<M, K, S, D, C> {
        ApartmentModel {
            activation_generation: self.activation_generation,
            focus_generation: self.focus_generation,
            client_id: self.client_id,
            activation_in_progress: self.activation_in_progress,
            key_admission_enabled: self.key_admission_enabled,
            thread_mgr: self.thread_mgr,
            keystroke_mgr: self.keystroke_mgr,
            source: self.source,
            thread_sink_cookie: self.thread_sink_cookie,
            focused_document: self.focused_document,
            focused_document_identity: self.focused_document_identity,
            focused_context: self.focused_context,
            focus_noted: self.focus_noted,
        }
    }
}

/// The state of a fresh instance: nothing active, no focus, generations 0.
pub open spec fn initial_model<M, K, S, D, C>() -> ApartmentModel<M, K, S, D, C> {
    ApartmentModel {
        activation_generation: 0,
        focus_generation: 0,
        client_id: 0,
        activation_in_progress: false,
        key_admission_enabled: false,
        thread_mgr: None,
        keystroke_mgr: None,
        source: None,
        thread_sink_cookie: None,
        focused_document: None,
        focused_document_identity: None,
        focused_context: None,
        focus_noted: false,
    }
}

/// The state after `begin_deactivation` from `m`.
pub open spec fn deactivated_model<M, K, S, D, C>(m: ApartmentModel<M, K, S, D, C>) -> ApartmentModel<
    M,
    K,
    S,
    D,
    C,
> {
    let was_active = m.is_activated() || m.activation_in_progress;
    ApartmentModel {
        activation_generation: if was_active {
            next_generation(m.activation_generation)
        } else {
            m.activation_generation
        },
        focus_generation: if was_active {
            next_generation(m.focus_generation)
        } else {
            m.focus_generation
        },
        client_id: 0,
        activation_in_progress: false,
        key_admission_enabled: false,
        thread_mgr: if was_active { None } else { m.thread_mgr },
        keystroke_mgr: if was_active { None } else { m.keystroke_mgr },
        source: if was_active { None } else { m.source },
        thread_sink_cookie: if was_active { None } else { m.thread_sink_cookie },
        focused_document: if was_active { None } else { m.focused_document },
        focused_context: if was_active { None } else { m.focused_context },
        ..m
    }
}

/// The state after installing `resources` as the focus of `m`.
pub open spec fn refocused_model<M, K, S, D, C>(
    m: ApartmentModel<M, K, S, D, C>,
    resources: FocusResources<D, C>,
) -> ApartmentModel<M, K, S, D, C> {
    ApartmentModel {
        focused_document: resources.document,
        focused_document_identity: resources.document_identity,
        focused_context: resources.context,
        focus_noted: false,
        focus_generation: next_generation(m.focus_generation),
        ..m
    }
}


/// The state after `begin_activation(client_id)` succeeds in `m`.
pub open spec fn activation_begun<M, K, S, D, C>(m: ApartmentModel<M, K, S, D, C>, client_id: u32) -> ApartmentModel<M, K, S, D, C> {
    ApartmentModel {
        activation_generation: next_generation(m.activation_generation),
        activation_in_progress: true,
        client_id,
        ..m
    }
}

/// The state after `complete_activation` installs `r` in `m`.
pub open spec fn activation_completed<M, K, S, D, C>(
    m: ApartmentModel<M, K, S, D, C>,
    r: ActivationResources<M, K, S, D, C>,
) -> ApartmentModel<M, K, S, D, C> {
    ApartmentModel {
        thread_mgr: Some(r.thread_mgr),
        keystroke_mgr: Some(r.keystroke_mgr),
        source: Some(r.source),
        thread_sink_cookie: Some(r.thread_sink_cookie),
        focused_document: r.focused_document,
        focused_document_identity: r.focused_document_identity,
        focused_context: r.focused_context,
        activation_in_progress: false,
        key_admission_enabled: true,
        focus_generation: if r.focused_document is Some || r.focused_context is Some {
            next_generation(m.focus_generation)
        } else {
            m.focus_generation
        },
        ..m
    }
}

/// The state after `abort_activation` of the current token in `m`.
pub open spec fn activation_aborted<M, K, S, D, C>(m: ApartmentModel<M, K, S, D, C>) -> ApartmentModel<M, K, S, D, C> {
    ApartmentModel {
        activation_generation: next_generation(m.activation_generation),
        focused_document_identity: None,
        client_id: 0,
        activation_in_progress: false,
        key_admission_enabled: false,
        ..m
    }
}

/// The resources that deactivation hands back from `m`.
pub open spec fn deactivation_resources<M, K, S, D, C>(m: ApartmentModel<M, K, S, D, C>) -> DeactivationResources<M, K, S, D, C> {
    DeactivationResources {
        client_id: m.client_id,
        thread_mgr: m.thread_mgr,
        keystroke_mgr: m.keystroke_mgr,
        source: m.source,
        thread_sink_cookie: m.thread_sink_cookie,
        focused_document: m.focused_document,
        focused_context: m.focused_context,
    }
}

/// The focus currently held in `m`.
pub open spec fn current_focus<M, K, S, D, C>(m: ApartmentModel<M, K, S, D, C>) -> FocusResources<D, C> {
    FocusResources {
        document: m.focused_document,
        document_identity: m.focused_document_identity,
        context: m.focused_context,
    }
}

/// No focus at all.
pub open spec fn no_focus<D, C>() -> FocusResources<D, C> {
    FocusResources { document: None, document_identity: None, context: None }
}

/// The state after replacing the focused context of `m` by `context`.
pub open spec fn context_replaced<M, K, S, D, C>(m: ApartmentModel<M, K, S, D, C>, context: Option<C>) -> ApartmentModel<M, K, S, D, C> {
    ApartmentModel {
        focused_context: context,
        focus_generation: next_generation(m.focus_generation),
        ..m
    }
}

impl<M, K, S, D, C> ApartmentState<M, K, S, D, C> {
    pub fn new() -> (state: Self)
        ensures
            state@ == initial_model::<M, K, S, D, C>(),
    {
        ApartmentState {
            activation_generation: 0,
            focus_generation: 0,
            client_id: 0,
            activation_in_progress: false,
            key_admission_enabled: false,
            thread_mgr: None,
            keystroke_mgr: None,
            source: None,
            thread_sink_cookie: None,
            focused_document: None,
            focused_document_identity: None,
            focused_context: None,
            focus_noted: false,
        }
    }

    pub fn is_activated(&self) -> (b: bool)
        ensures
            b == self@.is_activated(),
    {
        self.thread_mgr.is_some()
    }

    pub fn key_admission_enabled(&self) -> (b: bool)
        ensures
            b == self@.key_admission_enabled,
    {
        self.key_admission_enabled
    }

    pub fn activation_generation(&self) -> (g: u64)
        ensures
            g == self@.activation_generation,
    {
        self.activation_generation
    }

    pub fn focus_generation(&self) -> (g: u64)
        ensures
            g == self@.focus_generation,
    {
        self.focus_generation
    }

    pub fn has_focus(&self) -> (b: bool)
        ensures
            b == self@.has_focus(),
    {
        if self.focus_noted {
            return true;
        }
        self.focused_document.is_some() && self.focused_context.is_some()
    }

    /// Start an activation for `client_id`, unless one is active or under way.
    pub fn begin_activation(&mut self, client_id: u32) -> (token: Option<ActivationToken>)
        ensures
            old(self)@.is_activated() || old(self)@.activation_in_progress ==> token is None
                && final(self)@ == old(self)@,
            !(old(self)@.is_activated() || old(self)@.activation_in_progress) ==> {
                &&& token is Some
                &&& token->0.generation() == next_generation(old(self)@.activation_generation)
                &&& final(self)@ == activation_begun(old(self)@, client_id)
            },
    {
        if self.is_activated() || self.activation_in_progress {
            return None;
        }
        self.activation_generation = advance(self.activation_generation);
        self.activation_in_progress = true;
        self.client_id = client_id;
        Some(ActivationToken(self.activation_generation))
    }

    /// Whether `token` belongs to the activation under way.
    pub fn can_complete_activation(&self, token: ActivationToken) -> (b: bool)
        ensures
            b == self@.can_complete(token),
    {
        self.activation_in_progress && self.activation_generation == token.0
    }

    /// Accept `value` for the activation of `token`, or hand it back.
    pub fn accept_owned<T>(&self, token: ActivationToken, value: T) -> (r: Result<T, T>)
        ensures
            self@.can_complete(token) ==> r == Ok::<T, T>(value),
            !self@.can_complete(token) ==> r == Err::<T, T>(value),
    {
        if self.can_complete_activation(token) {
            Ok(value)
        } else {
            Err(value)
        }
    }

    /// The client id while an activation is under way or active.
    pub fn client_id(&self) -> (id: Option<u32>)
        ensures
            id == (if self@.activation_in_progress || self@.is_activated() {
                Some(self@.client_id)
            } else {
                None
            }),
    {
        if self.activation_in_progress || self.is_activated() {
            Some(self.client_id)
        } else {
            None
        }
    }

    /// Install the resources of the activation of `token`; a stale token gets
    /// the resources back and leaves the state unchanged.
    pub fn complete_activation(
        &mut self,
        token: ActivationToken,
        resources: ActivationResources<M, K, S, D, C>,
    ) -> (r: Result<(), ActivationResources<M, K, S, D, C>>)
        ensures
            !old(self)@.can_complete(token) ==> r == Err::<(), ActivationResources<M, K, S, D, C>>(
                resources,
            ) && final(self)@ == old(self)@,
            old(self)@.can_complete(token) ==> r is Ok && final(self)@ == activation_completed(
                old(self)@,
                resources,
            ),
    {
        let resources = match self.accept_owned(token, resources) {
            Ok(resources) => resources,
            Err(resources) => return Err(resources),
        };
        let ActivationResources {
            thread_mgr,
            keystroke_mgr,
            source,
            thread_sink_cookie,
            focused_document,
            focused_document_identity,
            focused_context,
        } = resources;
        let focus_present = focused_document.is_some() || focused_context.is_some();
        self.thread_mgr = Some(thread_mgr);
        self.keystroke_mgr = Some(keystroke_mgr);
        self.source = Some(source);
        self.thread_sink_cookie = Some(thread_sink_cookie);
        self.focused_document = focused_document;
        self.focused_document_identity = focused_document_identity;
        self.focused_context = focused_context;
        self.activation_in_progress = false;
        self.key_admission_enabled = true;
        if focus_present {
            self.focus_generation = advance(self.focus_generation);
        }
        Ok(())
    }

    /// Abandon the activation of `token`; a stale token changes nothing.
    pub fn abort_activation(&mut self, token: ActivationToken)
        ensures
            !old(self)@.can_complete(token) ==> final(self)@ == old(self)@,
            old(self)@.can_complete(token) ==> final(self)@ == activation_aborted(old(self)@),
    {
        if !self.can_complete_activation(token) {
            return;
        }
        self.activation_generation = advance(self.activation_generation);
        self.focused_document_identity = None;
        self.client_id = 0;
        self.activation_in_progress = false;
        self.key_admission_enabled = false;
    }

    /// Stop key admission and take back every resource of an active or
    /// starting activation, invalidating its token.
    pub fn begin_deactivation(&mut self) -> (r: Option<DeactivationResources<M, K, S, D, C>>)
        ensures
            final(self)@ == deactivated_model(old(self)@),
            (old(self)@.is_activated() || old(self)@.activation_in_progress) ==> r == Some(
                deactivation_resources(old(self)@),
            ),
            !(old(self)@.is_activated() || old(self)@.activation_in_progress) ==> r is None,
    {
        self.key_admission_enabled = false;
        let was_active = self.thread_mgr.is_some() || self.activation_in_progress;
        let resources = if was_active {
            Some(
                DeactivationResources {
                    client_id: self.client_id,
                    thread_mgr: self.thread_mgr.take(),
                    keystroke_mgr: self.keystroke_mgr.take(),
                    source: self.source.take(),
                    thread_sink_cookie: self.thread_sink_cookie.take(),
                    focused_document: self.focused_document.take(),
                    focused_context: self.focused_context.take(),
                },
            )
        } else {
            None
        };
        if was_active {
            self.activation_generation = advance(self.activation_generation);
        }
        self.client_id = 0;
        self.activation_in_progress = false;
        if was_active {
            self.focus_generation = advance(self.focus_generation);
        }
        resources
    }

    pub fn deactivate(&mut self)
        ensures
            final(self)@ == deactivated_model(old(self)@),
    {
        let _ = self.begin_deactivation();
    }

    /// Start a focus update in the current focus generation.
    pub fn begin_focus_update(&self) -> (ticket: FocusTicket)
        ensures
            ticket.generation() == self@.focus_generation,
    {
        FocusTicket(self.focus_generation)
    }

    /// Install `resources` as the focus if no focus change happened since
    /// `ticket`; otherwise hand them back unchanged.
    pub fn set_focus_if_current(
        &mut self,
        ticket: FocusTicket,
        resources: FocusResources<D, C>,
    ) -> (r: Result<FocusResources<D, C>, FocusResources<D, C>>)
        ensures
            ticket.generation() != old(self)@.focus_generation ==> r == Err::<
                FocusResources<D, C>,
                FocusResources<D, C>,
            >(resources) && final(self)@ == old(self)@,
            ticket.generation() == old(self)@.focus_generation ==> r == Ok::<
                FocusResources<D, C>,
                FocusResources<D, C>,
            >(current_focus(old(self)@)) && final(self)@ == refocused_model(old(self)@, resources),
    {
        if ticket.0 != self.focus_generation {
            return Err(resources);
        }
        Ok(self.set_focus(resources))
    }

    /// Install `resources` as the focus and return the previous focus.
    pub fn set_focus(&mut self, resources: FocusResources<D, C>) -> (old_focus: FocusResources<D, C>)
        ensures
            old_focus == (current_focus(old(self)@)),
            final(self)@ == refocused_model(old(self)@, resources),
    {
        let FocusResources { document, document_identity, context } = resources;
        let old_document = self.focused_document.take();
        let old_identity = self.focused_document_identity.take();
        let old_context = self.focused_context.take();
        self.focused_document = document;
        self.focused_document_identity = document_identity;
        self.focused_context = context;
        self.focus_noted = false;
        self.focus_generation = advance(self.focus_generation);
        FocusResources { document: old_document, document_identity: old_identity, context: old_context }
    }

    /// Clear the focus and return it.
    pub fn take_focus(&mut self) -> (old_focus: FocusResources<D, C>)
        ensures
            old_focus == (current_focus(old(self)@)),
            final(self)@ == refocused_model(old(self)@, no_focus()),
    {
        self.set_focus(FocusResources { document: None, document_identity: None, context: None })
    }

    /// Whether `identity` names the focused document.
    pub fn focused_document_matches(&self, identity: Option<usize>) -> (b: bool)
        ensures
            b == self@.document_matches(identity),
    {
        match identity {
            Some(id) => match self.focused_document_identity {
                Some(current) => id == current,
                None => false,
            },
            None => false,
        }
    }

    /// Clear the focus if `identity` names the focused document.
    pub fn clear_if_document_identity(&mut self, identity: Option<usize>) -> (r: Option<
        FocusResources<D, C>,
    >)
        ensures
            !old(self)@.document_matches(identity) ==> r is None && final(self)@ == old(self)@,
            old(self)@.document_matches(identity) ==> r == Some(current_focus(old(self)@)) && final(self)@ == refocused_model(old(self)@, no_focus()),
    {
        if self.focused_document_matches(identity) {
            let old = self.take_focus();
            return Some(old);
        }
        None
    }

    /// As `clear_if_document_identity`, but only if no focus change happened
    /// since `ticket`; a stale ticket gives `None` and changes nothing.
    pub fn clear_if_document_identity_current(
        &mut self,
        ticket: FocusTicket,
        identity: Option<usize>,
    ) -> (r: Option<Option<FocusResources<D, C>>>)
        ensures
            ticket.generation() != old(self)@.focus_generation ==> r is None && final(self)@ == old(
                self,
            )@,
            ticket.generation() == old(self)@.focus_generation && !old(self)@.document_matches(
                identity,
            ) ==> r == Some(None::<FocusResources<D, C>>) && final(self)@ == old(self)@,
            ticket.generation() == old(self)@.focus_generation && old(self)@.document_matches(
                identity,
            ) ==> r == Some(
                Some(current_focus(old(self)@)),
            ) && final(self)@ == refocused_model(old(self)@, no_focus()),
    {
        if ticket.0 != self.focus_generation {
            return None;
        }
        Some(self.clear_if_document_identity(identity))
    }

    /// Replace the focused context if `identity` names the focused document;
    /// otherwise hand `context` back.
    pub fn replace_context_if_document(&mut self, identity: Option<usize>, context: Option<C>) -> (r:
        Result<Option<C>, Option<C>>)
        ensures
            !old(self)@.document_matches(identity) ==> r == Err::<Option<C>, Option<C>>(context)
                && final(self)@ == old(self)@,
            old(self)@.document_matches(identity) ==> r == Ok::<Option<C>, Option<C>>(
                old(self)@.focused_context,
            ) && final(self)@ == context_replaced(old(self)@, context),
    {
        if !self.focused_document_matches(identity) {
            return Err(context);
        }
        self.focus_generation = advance(self.focus_generation);
        let old_context = self.focused_context.take();
        self.focused_context = context;
        Ok(old_context)
    }

    /// As `replace_context_if_document`, but only if no focus change happened
    /// since `ticket`.
    pub fn replace_context_if_current(
        &mut self,
        ticket: FocusTicket,
        identity: Option<usize>,
        context: Option<C>,
    ) -> (r: Result<Option<C>, Option<C>>)
        ensures
            ticket.generation() != old(self)@.focus_generation ==> r == Err::<Option<C>, Option<C>>(
                context,
            ) && final(self)@ == old(self)@,
            ticket.generation() == old(self)@.focus_generation && !old(self)@.document_matches(
                identity,
            ) ==> r == Err::<Option<C>, Option<C>>(context) && final(self)@ == old(self)@,
            ticket.generation() == old(self)@.focus_generation && old(self)@.document_matches(
                identity,
            ) ==> r == Ok::<Option<C>, Option<C>>(old(self)@.focused_context) && final(self)@ == context_replaced(old(self)@, context),
    {
        if ticket.0 != self.focus_generation {
            return Err(context);
        }
        self.replace_context_if_document(identity, context)
    }

    /// Record the identity of the focused document without its interfaces.
    pub fn set_focused_document_identity(&mut self, identity: Option<usize>)
        ensures
            final(self)@ == (ApartmentModel { focused_document_identity: identity, ..old(self)@ }),
    {
        self.focused_document_identity = identity;
    }

    /// Record focus presence without resources; advances the focus generation.
    pub fn note_focus_presence(&mut self, present: bool)
        ensures
            final(self)@ == (ApartmentModel {
                focus_noted: present,
                focus_generation: next_generation(old(self)@.focus_generation),
                ..old(self)@
            }),
    {
        self.focus_noted = present;
        self.focus_generation = advance(self.focus_generation);
    }

    /// Record that the focused context changed; advances the focus generation.
    pub fn note_context_changed(&mut self)
        ensures
            final(self)@ == (ApartmentModel {
                focus_generation: next_generation(old(self)@.focus_generation),
                ..old(self)@
            }),
    {
        self.focus_generation = advance(self.focus_generation);
    }
}

} // verus!

verus! {

/// A generation never equals the one that follows it.
pub proof fn lemma_next_generation_differs(g: u64)
    ensures
        next_generation(g) != g,
{
}

/// Deactivation invalidates the token of an activation under way: the
/// activation generation moves on and no activation is in progress, so the
/// token can no longer complete.
pub proof fn lemma_deactivation_invalidates_token<M, K, S, D, C>(
    m: ApartmentModel<M, K, S, D, C>,
    token: ActivationToken,
)
    requires
        m.can_complete(token),
    ensures
        !deactivated_model(m).can_complete(token),
        deactivated_model(m).activation_generation != token.generation(),
        !deactivated_model(m).key_admission_enabled,
        !deactivated_model(m).is_activated(),
{
}

/// No token completes an activation once deactivation ran.
pub proof fn lemma_no_completion_after_deactivation<M, K, S, D, C>(
    m: ApartmentModel<M, K, S, D, C>,
    token: ActivationToken,
)
    ensures
        !deactivated_model(m).can_complete(token),
{
}

/// Deactivation is idempotent: a second deactivation changes nothing.
pub proof fn lemma_deactivation_idempotent<M, K, S, D, C>(m: ApartmentModel<M, K, S, D, C>)
    ensures
        deactivated_model(deactivated_model(m)) == deactivated_model(m),
{
}

/// An aborted activation's token can no longer complete, and the state is
/// neither activated nor admitting keys.
pub proof fn lemma_abort_invalidates_token<M, K, S, D, C>(
    m: ApartmentModel<M, K, S, D, C>,
    token: ActivationToken,
)
    requires
        m.can_complete(token),
        !m.is_activated(),
    ensures
        !activation_aborted(m).can_complete(token),
        !activation_aborted(m).is_activated(),
        !activation_aborted(m).key_admission_enabled,
{
}

/// A focus ticket taken before any focus change is stale afterwards: every
/// focus change advances the focus generation.
pub proof fn lemma_focus_change_stales_ticket<M, K, S, D, C>(
    m: ApartmentModel<M, K, S, D, C>,
    resources: FocusResources<D, C>,
    context: Option<C>,
)
    ensures
        refocused_model(m, resources).focus_generation != m.focus_generation,
        context_replaced(m, context).focus_generation != m.focus_generation,
{
}

/// Installing a focus with a document identity makes exactly that identity
/// match; a missing identity never matches.
pub proof fn lemma_identity_match<M, K, S, D, C>(
    m: ApartmentModel<M, K, S, D, C>,
    resources: FocusResources<D, C>,
    other: usize,
)
    requires
        resources.document_identity is Some,
        resources.document_identity != Some(other),
    ensures
        refocused_model(m, resources).document_matches(resources.document_identity),
        !refocused_model(m, resources).document_matches(Some(other)),
        !m.document_matches(None),
{
}

} // verus!
