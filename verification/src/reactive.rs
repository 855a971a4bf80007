//! An observable health cell: one [`HealthUpdater`] writes the latest health
//! of a component, any number of [`ReactiveHealthCheck`]s read it.

use vstd::prelude::*;

use tokio::sync::watch;

use crate::check::CheckHealth;
use crate::health::{Health, HealthView};
use crate::status::HealthStatus;

verus! {

/// The sending half of a `tokio` watch channel.
#[verifier::external_type_specification]
#[verifier::external_body]
#[verifier::reject_recursive_types(T)]
pub struct ExWatchSender<T>(watch::Sender<T>);

/// The receiving half of a `tokio` watch channel.
#[verifier::external_type_specification]
#[verifier::external_body]
#[verifier::reject_recursive_types(T)]
pub struct ExWatchReceiver<T>(watch::Receiver<T>);

/// `Clone::clone` of `tokio::sync::watch::Receiver`: another receiver of the
/// same channel. Nothing is stated of it.
pub assume_specification<T>[ <watch::Receiver<T> as Clone>::clone ](
    receiver: &watch::Receiver<T>,
) -> watch::Receiver<T>
;

/// The health that a watch channel holds, seen from its sender: the value
/// that the channel was opened with or that was sent last.
pub uninterp spec fn published(sender: watch::Sender<Health>) -> HealthView;

/// `tokio::sync::watch::channel`: opens a channel that holds `initial`.
#[verifier::external_body]
fn open_channel(initial: Health) -> (ends: (watch::Sender<Health>, watch::Receiver<Health>))
    ensures
        published(ends.0) == initial@,
{
    watch::channel(initial)
}

/// `tokio::sync::watch::Sender::send_replace`: puts `health` into the channel,
/// whether or not a receiver is left, and returns the value that the channel
/// held before. It neither fails nor unwinds. The sender is taken by `&mut`:
/// an updater never clones its sender, so nothing else writes to the channel.
#[verifier::external_body]
fn publish(sender: &mut watch::Sender<Health>, health: Health) -> (previous: Health)
    ensures
        previous@ == published(*old(sender)),
        published(*final(sender)) == health@,
    opens_invariants none
    no_unwind
{
    sender.send_replace(health)
}

/// `tokio::sync::watch::Sender::subscribe`: a new receiver of the same
/// channel. Nothing is stated of it.
pub assume_specification<T>[ watch::Sender::<T>::subscribe ](
    sender: &watch::Sender<T>,
) -> watch::Receiver<T>
;

/// A borrow of the value that a `tokio` watch channel holds.
#[verifier::external_type_specification]
#[verifier::external_body]
#[verifier::reject_recursive_types(T)]
pub struct ExWatchRef<'a, T>(watch::Ref<'a, T>);

/// `tokio::sync::watch::Receiver::borrow`: borrows the value that the channel
/// holds at this moment, without waiting for a later one. Which value that is
/// depends on what the sender did last, so nothing is stated of it.
pub assume_specification<T>[ watch::Receiver::<T>::borrow ](
    receiver: &watch::Receiver<T>,
) -> watch::Ref<'_, T>
;

/// `Deref::deref` of `tokio::sync::watch::Ref`: the value that was borrowed.
pub assume_specification<'a, 'b, T>[ <watch::Ref<'a, T> as core::ops::Deref>::deref ](
    borrowed: &'b watch::Ref<'a, T>,
) -> &'b T
;

/// The status that a cell takes when its updater goes away: `Panicked` if the
/// context that owns the updater is failing, `ShutDown` otherwise.
pub open spec fn terminal_status(panicking: bool) -> HealthStatus {
    if panicking {
        HealthStatus::Panicked
    } else {
        HealthStatus::ShutDown
    }
}

/// The state of a cell as its updater sees it.
pub struct UpdaterView {
    /// The name of the component.
    pub name: Seq<char>,
    /// Whether the terminal update is still owed when the updater goes away.
    pub tracks_drop: bool,
    /// The health that the cell holds.
    pub health: HealthView,
}

impl UpdaterView {
    /// The state of a cell that was just created for the component `name`.
    pub open spec fn fresh(name: Seq<char>) -> UpdaterView {
        UpdaterView { name, tracks_drop: true, health: HealthView::bare(HealthStatus::NotReady) }
    }

    /// The state after `health` was pushed.
    pub open spec fn updated(self, health: HealthView) -> UpdaterView {
        UpdaterView { health, ..self }
    }

    /// Whether pushing `health` changes what the cell holds.
    pub open spec fn changes_with(self, health: HealthView) -> bool {
        self.health != health
    }

    /// The state after the updater was frozen: the terminal update is no
    /// longer owed.
    pub open spec fn frozen(self) -> UpdaterView {
        UpdaterView { tracks_drop: false, ..self }
    }

    /// The state after the updater was closed or dropped: the terminal update
    /// is made if it was still owed, and is owed no more.
    pub open spec fn closed(self, panicking: bool) -> UpdaterView {
        if self.tracks_drop {
            UpdaterView {
                tracks_drop: false,
                health: HealthView::bare(terminal_status(panicking)),
                ..self
            }
        } else {
            self
        }
    }

    /// The state after the healths of `pushed` were pushed one after another.
    pub open spec fn updated_with_all(self, pushed: Seq<HealthView>) -> UpdaterView
        decreases pushed.len(),
    {
        if pushed.len() == 0 {
            self
        } else {
            self.updated_with_all(pushed.drop_last()).updated(pushed.last())
        }
    }
}

/// Basic implementation of [`CheckHealth`] trait that can be updated using a matching
/// [`HealthUpdater`].
#[derive(Debug, Clone)]
pub struct ReactiveHealthCheck {
    name: &'static str,
    health_receiver: watch::Receiver<Health>,
}

impl ReactiveHealthCheck {
    /// The name of the component that this check reports on.
    pub closed spec fn spec_name(&self) -> Seq<char> {
        self.name@
    }

    /// Creates a health check together with an updater that can be used to update it.
    /// The check will return [`HealthStatus::NotReady`] initially.
    pub fn new(name: &'static str) -> (pair: (Self, HealthUpdater))
        ensures
            pair.0.spec_name() == name@,
            pair.1@ == UpdaterView::fresh(name@),
    {
        let (health_sender, health_receiver) = open_channel(Health::new(HealthStatus::NotReady));
        let this = Self { name, health_receiver };
        let updater = HealthUpdater { name, should_track_drop: true, health_sender };
        (this, updater)
    }
}

impl CheckHealth for ReactiveHealthCheck {
    open spec fn may_be_named(&self, name: Seq<char>) -> bool {
        name == self.spec_name()
    }

    fn name(&self) -> (name: &'static str) {
        self.name
    }

    /// Returns the health that the cell holds now, without waiting.
    fn check_health(&self) -> Health {
        self.health_receiver.borrow().clone()
    }
}

/// Updater for [`ReactiveHealthCheck`]. Can be created using [`ReactiveHealthCheck::new()`].
///
/// On drop, will automatically update status to [`HealthStatus::ShutDown`], unless the updater
/// was closed before with [`Self::close()`], or the drop is performed using [`Self::freeze()`].
/// An owner that is failing says so by closing the updater itself: the status is then
/// [`HealthStatus::Panicked`].
#[derive(Debug)]
pub struct HealthUpdater {
    name: &'static str,
    should_track_drop: bool,
    health_sender: watch::Sender<Health>,
}

impl View for HealthUpdater {
    type V = UpdaterView;

    closed spec fn view(&self) -> UpdaterView {
        UpdaterView {
            name: self.name@,
            tracks_drop: self.should_track_drop,
            health: published(self.health_sender),
        }
    }
}

impl HealthUpdater {
    /// Updates the health check information, returning if a change occurred from previous state.
    /// Note, description change on Health is counted as a change, even if status is the same.
    /// I.e., `Health { Ready, None }` to `Health { Ready, Some(_) }` is considered a change.
    pub fn update(&mut self, health: Health) -> (changed: bool)
        ensures
            changed == old(self)@.changes_with(health@),
            final(self)@ == old(self)@.updated(health@),
    {
        let old_health = publish(&mut self.health_sender, health.clone());
        old_health != health
    }

    /// Closes this updater so that the corresponding health check can no longer be updated, not
    /// even if the updater is dropped.
    pub fn freeze(self) {
        let mut this = self;
        this.should_track_drop = false;
        // The drop that ends this function finds no terminal update owed.
        assert(this@ == self@.frozen() && this@.closed(false) == this@);
    }

    /// Creates a [`ReactiveHealthCheck`] attached to this updater. This allows not retaining the
    /// initial health check returned by [`ReactiveHealthCheck::new()`].
    pub fn subscribe(&self) -> (check: ReactiveHealthCheck)
        ensures
            check.spec_name() == self@.name,
    {
        ReactiveHealthCheck { name: self.name, health_receiver: self.health_sender.subscribe() }
    }

    /// Makes the terminal update now, unless it is no longer owed: to
    /// [`HealthStatus::Panicked`] if `panicking`, otherwise to [`HealthStatus::ShutDown`].
    /// Returns whether this changed the health of the cell. After the call the terminal update
    /// is owed no more, so that it is made at most once, whatever follows.
    pub fn close(&mut self, panicking: bool) -> (changed: bool)
        ensures
            final(self)@ == old(self)@.closed(panicking),
            changed == (old(self)@.tracks_drop && old(self)@.changes_with(
                HealthView::bare(terminal_status(panicking)),
            )),
    {
        match self.terminate(panicking) {
            Some(old_health) => old_health != Health::new(terminal(panicking)),
            None => false,
        }
    }

    /// The terminal update itself. Returns the health that it replaced, if it was made.
    fn terminate(&mut self, panicking: bool) -> (replaced: Option<Health>)
        ensures
            final(self)@ == old(self)@.closed(panicking),
            match replaced {
                Some(old_health) => old(self)@.tracks_drop && old_health@ == old(self)@.health,
                None => !old(self)@.tracks_drop,
            },
        opens_invariants none
        no_unwind
    {
        if !self.should_track_drop {
            return None;
        }
        self.should_track_drop = false;
        Some(publish(&mut self.health_sender, Health::new(terminal(panicking))))
    }
}

impl Drop for HealthUpdater {
    fn drop(&mut self)
        ensures
            final(self)@ == old(self)@.closed(false),
        opens_invariants none
        no_unwind
    {
        let _ = self.terminate(false);
    }
}

/// Of healths pushed one after another, each is reported as a change exactly
/// when it differs from the health pushed just before it; the first, when it
/// differs from the health that the cell held before.
pub proof fn lemma_updates_report_changes(cell: UpdaterView, pushed: Seq<HealthView>, at: int)
    requires
        0 <= at < pushed.len(),
    ensures
        cell.updated_with_all(pushed.take(at)).changes_with(pushed[at]) == (pushed[at] != if at
            == 0 {
            cell.health
        } else {
            pushed[at - 1]
        }),
{
    let earlier = pushed.take(at);
    if at > 0 {
        assert(earlier.last() == pushed[at - 1]);
    }
}

/// Pushing the health that the cell already holds is no change: of two equal
/// healths pushed in a row the second is never reported.
pub proof fn lemma_repeated_update_is_no_change(cell: UpdaterView, health: HealthView)
    ensures
        !cell.updated(health).changes_with(health),
        cell.updated(health).updated(health) == cell.updated(health),
{
}

/// An updater that goes away while the terminal update is owed leaves its
/// cell shut down, or panicked if its owner was failing; and no update is
/// owed after that, so that closing and dropping again change nothing.
pub proof fn lemma_terminal_update_is_made_once(cell: UpdaterView, first: bool, second: bool)
    ensures
        cell.tracks_drop ==> cell.closed(first).health == HealthView::bare(
            terminal_status(first),
        ),
        cell.closed(first).closed(second) == cell.closed(first),
{
}

/// A frozen cell keeps the health that was pushed last: when its updater goes
/// away, in whatever way, the cell stays as it is.
pub proof fn lemma_frozen_cell_keeps_health(cell: UpdaterView, panicking: bool)
    ensures
        cell.frozen().health == cell.health,
        cell.frozen().closed(panicking) == cell.frozen(),
{
}

/// See [`terminal_status`].
fn terminal(panicking: bool) -> (status: HealthStatus)
    ensures
        status == terminal_status(panicking),
    opens_invariants none
    no_unwind
{
    if panicking {
        HealthStatus::Panicked
    } else {
        HealthStatus::ShutDown
    }
}

} // verus!
