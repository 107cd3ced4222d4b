//! The delta engine: how a desired and an observed value turn into what must
//! be added and what must be removed.
//!
//! Two rules cover every field of every domain. A scalar is replaced as a
//! whole or left alone. A list is compared as a set: what is desired and not
//! observed is added, what is observed and not desired is removed, each in
//! the order in which its source lists it, with nothing deduplicated.

use vstd::prelude::*;
use crate::data_types::{
    Diff, DirectoriesDiff, DownloadsDiff, Fail2BanDiff, FilesDiff, GrubDiff, KeyboardDiff,
    LanguageDiff, MkinitcpioDiff, MonitorDiff, PackagesDiff, PacmanDiff, ServicesDiff, ShellDiff,
    SystemDiff, TimeDiff, UfwDiff, UserDiff,
};
use crate::item::{contains, Item};
use crate::structure::{
    Directories, DirectoriesView, Downloads, DownloadsView, Fail2Ban, Fail2BanView, Files,
    FilesView, Grub, GrubView, Keyboard, KeyboardView, Language, LanguageView, Mkinitcpio,
    MkinitcpioView, Monitor, MonitorView, Packages, PackagesView, Pacman, PacmanView, Services,
    ServicesView, Shell, ShellView, System, SystemView, Time, TimeView, Ufw, UfwView, Users,
    UsersView,
};

verus! {

/// The test "does not occur in `b`".
pub open spec fn absent_from<A>(b: Seq<A>) -> spec_fn(A) -> bool {
    |x: A| !b.contains(x)
}

/// The elements of `a` that do not occur in `b`, in the order of `a`.
pub open spec fn without<A>(a: Seq<A>, b: Seq<A>) -> Seq<A> {
    a.filter(absent_from(b))
}

/// A list as a field holds it: an empty list is absent.
pub open spec fn present<A>(list: Seq<A>) -> Option<Seq<A>> {
    if list.len() == 0 {
        None
    } else {
        Some(list)
    }
}

/// The elements a list-valued field holds: none when it is absent.
pub open spec fn listed<A>(field: Option<Seq<A>>) -> Seq<A> {
    match field {
        Some(list) => list,
        None => Seq::empty(),
    }
}

/// The delta of a scalar field: nothing when both sides agree, otherwise the
/// desired value replaces the observed one.
pub open spec fn scalar_delta<A>(desired: Option<A>, observed: Option<A>) -> Diff<Option<A>> {
    if desired == observed {
        Diff { add: None, remove: None }
    } else {
        Diff { add: desired, remove: observed }
    }
}

/// The delta of a list-valued field.
pub open spec fn set_delta<A>(desired: Option<Seq<A>>, observed: Option<Seq<A>>) -> Diff<
    Option<Seq<A>>,
> {
    Diff {
        add: present(without(listed(desired), listed(observed))),
        remove: present(without(listed(observed), listed(desired))),
    }
}

/// Turning empty lists into absent fields a second time changes nothing.
pub proof fn normalizing_is_idempotent<A>(field: Option<Seq<A>>)
    ensures
        present(listed(present(listed(field)))) == present(listed(field)),
{
}

/// Copies out the elements of `a` that do not occur in `b`.
pub fn difference<T: Item>(a: &Vec<T>, b: &Vec<T>) -> (out: Vec<T>)
    ensures
        out.deep_view() == without(a.deep_view(), b.deep_view()),
{
    let ghost keep = absent_from(b.deep_view());
    let mut out: Vec<T> = Vec::new();
    let mut i: usize = 0;
    proof {
        reveal(Seq::filter);
        assert(a.deep_view().take(0) =~= Seq::empty());
        assert(out.deep_view() =~= Seq::empty());
    }
    while i < a.len()
        invariant
            i <= a.len(),
            keep == absent_from(b.deep_view()),
            out.deep_view() == a.deep_view().take(i as int).filter(keep),
        decreases a.len() - i,
    {
        let ghost before = out.deep_view();
        let ghost item = a@[i as int].deep_view();
        proof {
            assert(a.deep_view().take(i + 1) =~= a.deep_view().take(i as int).push(item));
            a.deep_view().take(i as int).lemma_filter_push(item, keep);
        }
        if !contains(b, &a[i]) {
            out.push(a[i].duplicate());
            assert(out.deep_view() =~= before.push(item));
        }
        i += 1;
    }
    assert(a.deep_view().take(a.len() as int) =~= a.deep_view());
    out
}

/// Turns a list into a field value: an empty list becomes absent.
pub fn normalized<T: Item>(list: Vec<T>) -> (field: Option<Vec<T>>)
    ensures
        field.deep_view() == present(list.deep_view()),
{
    if list.len() == 0 {
        None
    } else {
        Some(list)
    }
}

/// Copies a list-valued field; an empty list becomes absent.
pub fn normalize<T: Item>(field: &Option<Vec<T>>) -> (copy: Option<Vec<T>>)
    ensures
        copy.deep_view() == present(listed(field.deep_view())),
{
    match field {
        Some(list) => {
            if list.len() == 0 {
                None
            } else {
                Some(list.duplicate())
            }
        },
        None => None,
    }
}

/// Computes the delta of a list-valued field.
pub fn diff_set<T: Item>(desired: &Option<Vec<T>>, observed: &Option<Vec<T>>) -> (delta: Diff<
    Option<Vec<T>>,
>)
    ensures
        delta.deep_view() == set_delta(desired.deep_view(), observed.deep_view()),
{
    let none: Vec<T> = Vec::new();
    assert(none.deep_view() =~= Seq::empty());
    let wanted: &Vec<T> = match desired {
        Some(list) => list,
        None => &none,
    };
    let found: &Vec<T> = match observed {
        Some(list) => list,
        None => &none,
    };
    Diff {
        add: normalized(difference(wanted, found)),
        remove: normalized(difference(found, wanted)),
    }
}

/// Computes the delta of a scalar field.
pub fn diff_scalar<T: Item>(desired: &Option<T>, observed: &Option<T>) -> (delta: Diff<Option<T>>)
    ensures
        delta.deep_view() == scalar_delta(desired.deep_view(), observed.deep_view()),
{
    if desired.same(observed) {
        Diff { add: None, remove: None }
    } else {
        Diff { add: desired.duplicate(), remove: observed.duplicate() }
    }
}

/// Membership in a difference: an element is in `without(a, b)` exactly when
/// it is in `a` and not in `b`.
pub proof fn without_membership<A>(a: Seq<A>, b: Seq<A>, x: A)
    ensures
        without(a, b).contains(x) <==> a.contains(x) && !b.contains(x),
{
    let keep = absent_from(b);
    if without(a, b).contains(x) {
        a.lemma_filter_contains_rev(keep, x);
        let i = choose|i: int| 0 <= i < a.filter(keep).len() && a.filter(keep)[i] == x;
        a.lemma_filter_pred(keep, i);
    }
    if a.contains(x) && !b.contains(x) {
        let i = choose|i: int| 0 <= i < a.len() && a[i] == x;
        a.lemma_filter_contains(keep, i);
    }
}

/// A list lacks all of its elements against an empty list.
pub proof fn without_nothing<A>(a: Seq<A>)
    ensures
        without(a, Seq::empty()) == a,
    decreases a.len(),
{
    let keep = absent_from(Seq::<A>::empty());
    if a.len() == 0 {
        reveal(Seq::filter);
        assert(a.filter(keep) =~= a);
    } else {
        without_nothing(a.drop_last());
        a.drop_last().lemma_filter_push(a.last(), keep);
        assert(a.drop_last().push(a.last()) =~= a);
    }
}

/// How often `x` occurs in `s`.
pub open spec fn occurrences<A>(s: Seq<A>, x: A) -> nat
    decreases s.len(),
{
    if s.len() == 0 {
        0
    } else {
        occurrences(s.drop_last(), x) + if s.last() == x {
            1nat
        } else {
            0nat
        }
    }
}

/// Nothing is deduplicated: an element that does not occur in `b` occurs
/// in `without(a, b)` as often as it occurs in `a`.
pub proof fn without_keeps_duplicates<A>(a: Seq<A>, b: Seq<A>, x: A)
    ensures
        occurrences(without(a, b), x) == if b.contains(x) {
            0
        } else {
            occurrences(a, x)
        },
    decreases a.len(),
{
    let keep = absent_from(b);
    if a.len() == 0 {
        reveal(Seq::filter);
        assert(a.filter(keep) =~= a);
    } else {
        let front = a.drop_last();
        without_keeps_duplicates(front, b, x);
        front.lemma_filter_push(a.last(), keep);
        assert(front.push(a.last()) =~= a);
        if keep(a.last()) {
            assert(without(a, b).drop_last() =~= without(front, b));
            assert(without(a, b).last() == a.last());
        }
    }
}

/// The set rule is set difference. For a desired list and an observed list,
/// what is added holds exactly the desired elements that were not observed,
/// what is removed holds exactly the observed elements that are not desired,
/// and both are absent exactly when the two lists hold the same elements,
/// whatever their order and however often each occurs.
pub proof fn set_delta_is_set_difference<A>(desired: Option<Seq<A>>, observed: Option<Seq<A>>)
    ensures
        forall|x: A|
            listed(set_delta(desired, observed).add).contains(x) <==> listed(desired).contains(x)
                && !listed(observed).contains(x),
        forall|x: A|
            listed(set_delta(desired, observed).remove).contains(x) <==> listed(
                observed,
            ).contains(x) && !listed(desired).contains(x),
        listed(set_delta(desired, observed).add) == without(listed(desired), listed(observed)),
        listed(set_delta(desired, observed).remove) == without(listed(observed), listed(desired)),
        without(listed(desired), listed(observed)).len() + without(
            listed(observed),
            listed(desired),
        ).len() == 0 <==> listed(desired).to_set() == listed(observed).to_set(),
        (set_delta(desired, observed).add is None && set_delta(desired, observed).remove is None)
            <==> listed(desired).to_set() == listed(observed).to_set(),
{
    let a = listed(desired);
    let b = listed(observed);
    let add = without(a, b);
    let remove = without(b, a);
    assert(listed(present(add)) =~= add);
    assert(listed(present(remove)) =~= remove);
    assert forall|x: A| add.contains(x) <==> a.contains(x) && !b.contains(x) by {
        without_membership(a, b, x);
    }
    assert forall|x: A| remove.contains(x) <==> b.contains(x) && !a.contains(x) by {
        without_membership(b, a, x);
    }
    if add.len() + remove.len() == 0 {
        assert forall|x: A| a.contains(x) <==> b.contains(x) by {
            if a.contains(x) && !b.contains(x) {
                assert(add.contains(x));
            }
            if b.contains(x) && !a.contains(x) {
                assert(remove.contains(x));
            }
        }
        assert(a.to_set() =~= b.to_set());
    }
    if a.to_set() == b.to_set() {
        assert forall|x: A| a.contains(x) <==> b.contains(x) by {
            assert(a.to_set().contains(x) <==> b.to_set().contains(x));
        }
        if add.len() > 0 {
            assert(add.contains(add[0]));
        }
        if remove.len() > 0 {
            assert(remove.contains(remove[0]));
        }
    }
}

/// The delta of a list leads from the observed state to the desired one,
/// and holds nothing that it need not hold: what is observed and not
/// removed, together with what is added, is what is desired; nothing is
/// added that was observed, and nothing is removed that is desired.
pub proof fn set_delta_leads_to_desired<A>(desired: Option<Seq<A>>, observed: Option<Seq<A>>)
    ensures
        forall|x: A|
            listed(desired).contains(x) <==> (listed(observed).contains(x) && !listed(
                set_delta(desired, observed).remove,
            ).contains(x)) || listed(set_delta(desired, observed).add).contains(x),
        forall|x: A|
            listed(set_delta(desired, observed).add).contains(x) ==> !listed(observed).contains(x),
        forall|x: A|
            listed(set_delta(desired, observed).remove).contains(x) ==> !listed(desired).contains(
                x,
            ),
{
    set_delta_is_set_difference(desired, observed);
}

/// The elements of a difference stand in the order in which the list holds
/// them: of two elements of `without(a, b)`, the earlier one is found
/// earlier in `a`.
pub proof fn without_keeps_order<A>(a: Seq<A>, b: Seq<A>, i: int, j: int)
    requires
        0 <= i < j < without(a, b).len(),
    ensures
        exists|p: int, q: int|
            0 <= p < q < a.len() && a[p] == without(a, b)[i] && a[q] == without(a, b)[j],
    decreases a.len(),
{
    let keep = absent_from(b);
    let rest = without(a, b);
    if a.len() == 0 {
        reveal(Seq::filter);
    } else {
        let front = a.drop_last();
        front.lemma_filter_push(a.last(), keep);
        assert(front.push(a.last()) =~= a);
        if keep(a.last()) && j == rest.len() - 1 {
            let earlier = without(front, b);
            assert(earlier[i] == rest[i]);
            assert(earlier.contains(earlier[i]));
            without_membership(front, b, earlier[i]);
            let p = choose|p: int| 0 <= p < front.len() && front[p] == earlier[i];
            assert(a[p] == rest[i] && a[a.len() - 1] == rest[j]);
        } else {
            without_keeps_order(front, b, i, j);
            let (p, q) = choose|p: int, q: int|
                0 <= p < q < front.len() && front[p] == without(front, b)[i] && front[q]
                    == without(front, b)[j];
            assert(a[p] == rest[i] && a[q] == rest[j]);
        }
    }
}

/// Where nothing is desired, everything observed is removed; where nothing
/// was observed, everything desired is added.
pub proof fn absent_side_is_empty<A>(field: Option<Seq<A>>)
    ensures
        set_delta(None, field) == (Diff { add: None::<Seq<A>>, remove: present(listed(field)) }),
        set_delta(field, None) == (Diff { add: present(listed(field)), remove: None::<Seq<A>> }),
{
    without_nothing(listed(field));
    let nothing = Seq::<A>::empty();
    reveal(Seq::filter);
    assert(without(nothing, listed(field)) =~= nothing);
}

/// A list compared with itself, in any arrangement of the same elements,
/// yields no delta.
pub proof fn set_delta_of_equal_is_empty<A>(field: Option<Seq<A>>)
    ensures
        set_delta(field, field) == (Diff { add: None::<Seq<A>>, remove: None::<Seq<A>> }),
{
    set_delta_is_set_difference(field, field);
}

/// The scalar rule replaces as a whole: where desired and observed differ,
/// the desired value is added and the observed one removed, verbatim; where
/// they agree, nothing is added and nothing removed.
pub proof fn scalar_delta_replaces<A>(desired: Option<A>, observed: Option<A>)
    ensures
        desired != observed ==> scalar_delta(desired, observed).add == desired && scalar_delta(
            desired,
            observed,
        ).remove == observed,
        desired == observed ==> scalar_delta(desired, observed).add is None && scalar_delta(
            desired,
            observed,
        ).remove is None,
{
}

/// Computes the delta of a snapshot triple from its desired and its observed
/// state.
pub trait GetDiff: Sized {
    /// Whether `after` is `before` with its delta computed anew from its
    /// desired and its observed state, which stay as they are.
    spec fn diffed(before: Self, after: Self) -> bool;

    fn get_diff(&mut self)
        ensures
            Self::diffed(*old(self), *final(self)),
    ;
}

impl KeyboardView {
    /// The delta between the desired and the observed keyboard layout.
    pub open spec fn delta(desired: KeyboardView, observed: KeyboardView) -> Diff<KeyboardView> {
        let keyboard_tty = scalar_delta(desired.keyboard_tty, observed.keyboard_tty);
        let mkinitcpio = scalar_delta(desired.mkinitcpio, observed.mkinitcpio);
        Diff {
            add: KeyboardView {
                keyboard_tty: keyboard_tty.add,
                mkinitcpio: mkinitcpio.add,
            },
            remove: KeyboardView {
                keyboard_tty: keyboard_tty.remove,
                mkinitcpio: mkinitcpio.remove,
            },
        }
    }
}

impl GetDiff for KeyboardDiff {
    open spec fn diffed(before: KeyboardDiff, after: KeyboardDiff) -> bool {
        &&& after.config == before.config
        &&& after.system == before.system
        &&& after.diff.deep_view() == KeyboardView::delta(before.config@, before.system@)
    }

    fn get_diff(&mut self) {
        let keyboard_tty = diff_scalar(&self.config.keyboard_tty, &self.system.keyboard_tty);
        let mkinitcpio = diff_scalar(&self.config.mkinitcpio, &self.system.mkinitcpio);
        self.diff = Diff {
            add: Keyboard {
                keyboard_tty: keyboard_tty.add,
                mkinitcpio: mkinitcpio.add,
            },
            remove: Keyboard {
                keyboard_tty: keyboard_tty.remove,
                mkinitcpio: mkinitcpio.remove,
            },
        };
    }
}

impl TimeView {
    /// The delta between the desired and the observed time settings.
    pub open spec fn delta(desired: TimeView, observed: TimeView) -> Diff<TimeView> {
        let timezone = scalar_delta(desired.timezone, observed.timezone);
        Diff {
            add: TimeView {
                timezone: timezone.add,
            },
            remove: TimeView {
                timezone: timezone.remove,
            },
        }
    }
}

impl GetDiff for TimeDiff {
    open spec fn diffed(before: TimeDiff, after: TimeDiff) -> bool {
        &&& after.config == before.config
        &&& after.system == before.system
        &&& after.diff.deep_view() == TimeView::delta(before.config@, before.system@)
    }

    fn get_diff(&mut self) {
        let timezone = diff_scalar(&self.config.timezone, &self.system.timezone);
        self.diff = Diff {
            add: Time {
                timezone: timezone.add,
            },
            remove: Time {
                timezone: timezone.remove,
            },
        };
    }
}

impl LanguageView {
    /// The delta between the desired and the observed language settings.
    pub open spec fn delta(desired: LanguageView, observed: LanguageView) -> Diff<LanguageView> {
        let locale = scalar_delta(desired.locale, observed.locale);
        let character = scalar_delta(desired.character, observed.character);
        Diff {
            add: LanguageView {
                locale: locale.add,
                character: character.add,
            },
            remove: LanguageView {
                locale: locale.remove,
                character: character.remove,
            },
        }
    }
}

impl GetDiff for LanguageDiff {
    open spec fn diffed(before: LanguageDiff, after: LanguageDiff) -> bool {
        &&& after.config == before.config
        &&& after.system == before.system
        &&& after.diff.deep_view() == LanguageView::delta(before.config@, before.system@)
    }

    fn get_diff(&mut self) {
        let locale = diff_scalar(&self.config.locale, &self.system.locale);
        let character = diff_scalar(&self.config.character, &self.system.character);
        self.diff = Diff {
            add: Language {
                locale: locale.add,
                character: character.add,
            },
            remove: Language {
                locale: locale.remove,
                character: character.remove,
            },
        };
    }
}

impl SystemView {
    /// The delta between the desired and the observed identity of the machine.
    pub open spec fn delta(desired: SystemView, observed: SystemView) -> Diff<SystemView> {
        let hostname = scalar_delta(desired.hostname, observed.hostname);
        Diff {
            add: SystemView {
                hostname: hostname.add,
            },
            remove: SystemView {
                hostname: hostname.remove,
            },
        }
    }
}

impl GetDiff for SystemDiff {
    open spec fn diffed(before: SystemDiff, after: SystemDiff) -> bool {
        &&& after.config == before.config
        &&& after.system == before.system
        &&& after.diff.deep_view() == SystemView::delta(before.config@, before.system@)
    }

    fn get_diff(&mut self) {
        let hostname = diff_scalar(&self.config.hostname, &self.system.hostname);
        self.diff = Diff {
            add: System {
                hostname: hostname.add,
            },
            remove: System {
                hostname: hostname.remove,
            },
        };
    }
}

impl ShellView {
    /// The delta between the desired and the observed shell settings.
    pub open spec fn delta(desired: ShellView, observed: ShellView) -> Diff<ShellView> {
        let default_shell = scalar_delta(desired.default_shell, observed.default_shell);
        Diff {
            add: ShellView {
                default_shell: default_shell.add,
            },
            remove: ShellView {
                default_shell: default_shell.remove,
            },
        }
    }
}

impl GetDiff for ShellDiff {
    open spec fn diffed(before: ShellDiff, after: ShellDiff) -> bool {
        &&& after.config == before.config
        &&& after.system == before.system
        &&& after.diff.deep_view() == ShellView::delta(before.config@, before.system@)
    }

    fn get_diff(&mut self) {
        let default_shell = diff_scalar(&self.config.default_shell, &self.system.default_shell);
        self.diff = Diff {
            add: Shell {
                default_shell: default_shell.add,
            },
            remove: Shell {
                default_shell: default_shell.remove,
            },
        };
    }
}

impl UsersView {
    /// The delta between the desired and the observed user accounts. Both
    /// lists follow the set rule. A membership record counts as observed only
    /// where name and groups agree as a whole: a user whose groups differ is
    /// removed with the observed groups and added with the desired ones.
    pub open spec fn delta(desired: UsersView, observed: UsersView) -> Diff<UsersView> {
        let users = set_delta(desired.user_list, observed.user_list);
        let groups = set_delta(desired.user_groups, observed.user_groups);
        Diff {
            add: UsersView { user_list: users.add, user_groups: groups.add },
            remove: UsersView { user_list: users.remove, user_groups: groups.remove },
        }
    }
}

impl GetDiff for UserDiff {
    open spec fn diffed(before: UserDiff, after: UserDiff) -> bool {
        &&& after.config == before.config
        &&& after.system == before.system
        &&& after.diff.deep_view() == UsersView::delta(before.config@, before.system@)
    }

    fn get_diff(&mut self) {
        let users = diff_set(&self.config.user_list, &self.system.user_list);
        let groups = diff_set(&self.config.user_groups, &self.system.user_groups);
        self.diff = Diff {
            add: Users { user_list: users.add, user_groups: groups.add },
            remove: Users { user_list: users.remove, user_groups: groups.remove },
        };
    }
}

impl PacmanView {
    /// The delta between the desired and the observed package manager
    /// configuration.
    pub open spec fn delta(desired: PacmanView, observed: PacmanView) -> Diff<PacmanView> {
        let parallel = scalar_delta(desired.parallel, observed.parallel);
        Diff {
            add: PacmanView {
                parallel: parallel.add,
            },
            remove: PacmanView {
                parallel: parallel.remove,
            },
        }
    }
}

impl GetDiff for PacmanDiff {
    open spec fn diffed(before: PacmanDiff, after: PacmanDiff) -> bool {
        &&& after.config == before.config
        &&& after.system == before.system
        &&& after.diff.deep_view() == PacmanView::delta(before.config@, before.system@)
    }

    fn get_diff(&mut self) {
        let parallel = diff_scalar(&self.config.parallel, &self.system.parallel);
        self.diff = Diff {
            add: Pacman {
                parallel: parallel.add,
            },
            remove: Pacman {
                parallel: parallel.remove,
            },
        };
    }
}

impl PackagesView {
    /// The delta between the desired and the observed installed packages.
    pub open spec fn delta(desired: PackagesView, observed: PackagesView) -> Diff<PackagesView> {
        let pacman_packages = set_delta(desired.pacman_packages, observed.pacman_packages);
        let aur_packages = set_delta(desired.aur_packages, observed.aur_packages);
        let manual_install_packages = set_delta(
            desired.manual_install_packages,
            observed.manual_install_packages,
        );
        Diff {
            add: PackagesView {
                pacman_packages: pacman_packages.add,
                aur_packages: aur_packages.add,
                manual_install_packages: manual_install_packages.add,
            },
            remove: PackagesView {
                pacman_packages: pacman_packages.remove,
                aur_packages: aur_packages.remove,
                manual_install_packages: manual_install_packages.remove,
            },
        }
    }
}

impl GetDiff for PackagesDiff {
    open spec fn diffed(before: PackagesDiff, after: PackagesDiff) -> bool {
        &&& after.config == before.config
        &&& after.system == before.system
        &&& after.diff.deep_view() == PackagesView::delta(before.config@, before.system@)
    }

    fn get_diff(&mut self) {
        let pacman_packages = diff_set(&self.config.pacman_packages, &self.system.pacman_packages);
        let aur_packages = diff_set(&self.config.aur_packages, &self.system.aur_packages);
        let manual_install_packages = diff_set(
            &self.config.manual_install_packages,
            &self.system.manual_install_packages,
        );
        self.diff = Diff {
            add: Packages {
                pacman_packages: pacman_packages.add,
                aur_packages: aur_packages.add,
                manual_install_packages: manual_install_packages.add,
            },
            remove: Packages {
                pacman_packages: pacman_packages.remove,
                aur_packages: aur_packages.remove,
                manual_install_packages: manual_install_packages.remove,
            },
        };
    }
}

impl ServicesView {
    /// The delta between the desired and the observed enabled services.
    pub open spec fn delta(desired: ServicesView, observed: ServicesView) -> Diff<ServicesView> {
        let user_services = set_delta(desired.user_services, observed.user_services);
        let services = set_delta(desired.services, observed.services);
        Diff {
            add: ServicesView {
                user_services: user_services.add,
                services: services.add,
            },
            remove: ServicesView {
                user_services: user_services.remove,
                services: services.remove,
            },
        }
    }
}

impl GetDiff for ServicesDiff {
    open spec fn diffed(before: ServicesDiff, after: ServicesDiff) -> bool {
        &&& after.config == before.config
        &&& after.system == before.system
        &&& after.diff.deep_view() == ServicesView::delta(before.config@, before.system@)
    }

    fn get_diff(&mut self) {
        let user_services = diff_set(&self.config.user_services, &self.system.user_services);
        let services = diff_set(&self.config.services, &self.system.services);
        self.diff = Diff {
            add: Services {
                user_services: user_services.add,
                services: services.add,
            },
            remove: Services {
                user_services: user_services.remove,
                services: services.remove,
            },
        };
    }
}

impl DirectoriesView {
    /// The delta between the desired and the observed directories and links.
    pub open spec fn delta(desired: DirectoriesView, observed: DirectoriesView) -> Diff<
        DirectoriesView,
    > {
        let reown_dirs = set_delta(desired.reown_dirs, observed.reown_dirs);
        let links = set_delta(desired.links, observed.links);
        let create_dirs = set_delta(desired.create_dirs, observed.create_dirs);
        Diff {
            add: DirectoriesView {
                reown_dirs: reown_dirs.add,
                links: links.add,
                create_dirs: create_dirs.add,
            },
            remove: DirectoriesView {
                reown_dirs: reown_dirs.remove,
                links: links.remove,
                create_dirs: create_dirs.remove,
            },
        }
    }
}

impl GetDiff for DirectoriesDiff {
    open spec fn diffed(before: DirectoriesDiff, after: DirectoriesDiff) -> bool {
        &&& after.config == before.config
        &&& after.system == before.system
        &&& after.diff.deep_view() == DirectoriesView::delta(before.config@, before.system@)
    }

    fn get_diff(&mut self) {
        let reown_dirs = diff_set(&self.config.reown_dirs, &self.system.reown_dirs);
        let links = diff_set(&self.config.links, &self.system.links);
        let create_dirs = diff_set(&self.config.create_dirs, &self.system.create_dirs);
        self.diff = Diff {
            add: Directories {
                reown_dirs: reown_dirs.add,
                links: links.add,
                create_dirs: create_dirs.add,
            },
            remove: Directories {
                reown_dirs: reown_dirs.remove,
                links: links.remove,
                create_dirs: create_dirs.remove,
            },
        };
    }
}

impl GrubView {
    /// The delta between the desired and the observed boot loader
    /// configuration.
    pub open spec fn delta(desired: GrubView, observed: GrubView) -> Diff<GrubView> {
        let grub_cmdline_linux_default = set_delta(
            desired.grub_cmdline_linux_default,
            observed.grub_cmdline_linux_default,
        );
        Diff {
            add: GrubView {
                grub_cmdline_linux_default: grub_cmdline_linux_default.add,
            },
            remove: GrubView {
                grub_cmdline_linux_default: grub_cmdline_linux_default.remove,
            },
        }
    }
}

impl GetDiff for GrubDiff {
    open spec fn diffed(before: GrubDiff, after: GrubDiff) -> bool {
        &&& after.config == before.config
        &&& after.system == before.system
        &&& after.diff.deep_view() == GrubView::delta(before.config@, before.system@)
    }

    fn get_diff(&mut self) {
        let grub_cmdline_linux_default = diff_set(
            &self.config.grub_cmdline_linux_default,
            &self.system.grub_cmdline_linux_default,
        );
        self.diff = Diff {
            add: Grub {
                grub_cmdline_linux_default: grub_cmdline_linux_default.add,
            },
            remove: Grub {
                grub_cmdline_linux_default: grub_cmdline_linux_default.remove,
            },
        };
    }
}

impl MkinitcpioView {
    /// The delta between the desired and the observed initial ramdisk
    /// configuration.
    pub open spec fn delta(desired: MkinitcpioView, observed: MkinitcpioView) -> Diff<
        MkinitcpioView,
    > {
        let modules = set_delta(desired.modules, observed.modules);
        let hooks = set_delta(desired.hooks, observed.hooks);
        Diff {
            add: MkinitcpioView {
                modules: modules.add,
                hooks: hooks.add,
            },
            remove: MkinitcpioView {
                modules: modules.remove,
                hooks: hooks.remove,
            },
        }
    }
}

impl GetDiff for MkinitcpioDiff {
    open spec fn diffed(before: MkinitcpioDiff, after: MkinitcpioDiff) -> bool {
        &&& after.config == before.config
        &&& after.system == before.system
        &&& after.diff.deep_view() == MkinitcpioView::delta(before.config@, before.system@)
    }

    fn get_diff(&mut self) {
        let modules = diff_set(&self.config.modules, &self.system.modules);
        let hooks = diff_set(&self.config.hooks, &self.system.hooks);
        self.diff = Diff {
            add: Mkinitcpio {
                modules: modules.add,
                hooks: hooks.add,
            },
            remove: Mkinitcpio {
                modules: modules.remove,
                hooks: hooks.remove,
            },
        };
    }
}

impl UfwView {
    /// The delta between the desired and the observed firewall.
    pub open spec fn delta(desired: UfwView, observed: UfwView) -> Diff<UfwView> {
        let incoming = scalar_delta(desired.incoming, observed.incoming);
        let outgoing = scalar_delta(desired.outgoing, observed.outgoing);
        let rules = set_delta(desired.rules, observed.rules);
        Diff {
            add: UfwView {
                incoming: incoming.add,
                outgoing: outgoing.add,
                rules: rules.add,
            },
            remove: UfwView {
                incoming: incoming.remove,
                outgoing: outgoing.remove,
                rules: rules.remove,
            },
        }
    }
}

impl GetDiff for UfwDiff {
    open spec fn diffed(before: UfwDiff, after: UfwDiff) -> bool {
        &&& after.config == before.config
        &&& after.system == before.system
        &&& after.diff.deep_view() == UfwView::delta(before.config@, before.system@)
    }

    fn get_diff(&mut self) {
        let incoming = diff_scalar(&self.config.incoming, &self.system.incoming);
        let outgoing = diff_scalar(&self.config.outgoing, &self.system.outgoing);
        let rules = diff_set(&self.config.rules, &self.system.rules);
        self.diff = Diff {
            add: Ufw {
                incoming: incoming.add,
                outgoing: outgoing.add,
                rules: rules.add,
            },
            remove: Ufw {
                incoming: incoming.remove,
                outgoing: outgoing.remove,
                rules: rules.remove,
            },
        };
    }
}

impl Fail2BanView {
    /// The delta between the desired and the observed intrusion prevention
    /// policy.
    pub open spec fn delta(desired: Fail2BanView, observed: Fail2BanView) -> Diff<Fail2BanView> {
        let ignoreip = scalar_delta(desired.ignoreip, observed.ignoreip);
        let bantime = scalar_delta(desired.bantime, observed.bantime);
        let findtime = scalar_delta(desired.findtime, observed.findtime);
        let maxretry = scalar_delta(desired.maxretry, observed.maxretry);
        let services = set_delta(desired.services, observed.services);
        Diff {
            add: Fail2BanView {
                ignoreip: ignoreip.add,
                bantime: bantime.add,
                findtime: findtime.add,
                maxretry: maxretry.add,
                services: services.add,
            },
            remove: Fail2BanView {
                ignoreip: ignoreip.remove,
                bantime: bantime.remove,
                findtime: findtime.remove,
                maxretry: maxretry.remove,
                services: services.remove,
            },
        }
    }
}

impl GetDiff for Fail2BanDiff {
    open spec fn diffed(before: Fail2BanDiff, after: Fail2BanDiff) -> bool {
        &&& after.config == before.config
        &&& after.system == before.system
        &&& after.diff.deep_view() == Fail2BanView::delta(before.config@, before.system@)
    }

    fn get_diff(&mut self) {
        let ignoreip = diff_scalar(&self.config.ignoreip, &self.system.ignoreip);
        let bantime = diff_scalar(&self.config.bantime, &self.system.bantime);
        let findtime = diff_scalar(&self.config.findtime, &self.system.findtime);
        let maxretry = diff_scalar(&self.config.maxretry, &self.system.maxretry);
        let services = diff_set(&self.config.services, &self.system.services);
        self.diff = Diff {
            add: Fail2Ban {
                ignoreip: ignoreip.add,
                bantime: bantime.add,
                findtime: findtime.add,
                maxretry: maxretry.add,
                services: services.add,
            },
            remove: Fail2Ban {
                ignoreip: ignoreip.remove,
                bantime: bantime.remove,
                findtime: findtime.remove,
                maxretry: maxretry.remove,
                services: services.remove,
            },
        };
    }
}

impl DownloadsView {
    /// The delta between the desired and the observed downloads.
    pub open spec fn delta(desired: DownloadsView, observed: DownloadsView) -> Diff<DownloadsView> {
        let git = set_delta(desired.git, observed.git);
        let curl = set_delta(desired.curl, observed.curl);
        let unzip = set_delta(desired.unzip, observed.unzip);
        Diff {
            add: DownloadsView {
                git: git.add,
                curl: curl.add,
                unzip: unzip.add,
            },
            remove: DownloadsView {
                git: git.remove,
                curl: curl.remove,
                unzip: unzip.remove,
            },
        }
    }
}

impl GetDiff for DownloadsDiff {
    open spec fn diffed(before: DownloadsDiff, after: DownloadsDiff) -> bool {
        &&& after.config == before.config
        &&& after.system == before.system
        &&& after.diff.deep_view() == DownloadsView::delta(before.config@, before.system@)
    }

    fn get_diff(&mut self) {
        let git = diff_set(&self.config.git, &self.system.git);
        let curl = diff_set(&self.config.curl, &self.system.curl);
        let unzip = diff_set(&self.config.unzip, &self.system.unzip);
        self.diff = Diff {
            add: Downloads {
                git: git.add,
                curl: curl.add,
                unzip: unzip.add,
            },
            remove: Downloads {
                git: git.remove,
                curl: curl.remove,
                unzip: unzip.remove,
            },
        };
    }
}

impl MonitorView {
    /// The delta between the desired and the observed monitor layout.
    pub open spec fn delta(desired: MonitorView, observed: MonitorView) -> Diff<MonitorView> {
        let monitors = set_delta(desired.monitors, observed.monitors);
        Diff {
            add: MonitorView {
                monitors: monitors.add,
            },
            remove: MonitorView {
                monitors: monitors.remove,
            },
        }
    }
}

impl GetDiff for MonitorDiff {
    open spec fn diffed(before: MonitorDiff, after: MonitorDiff) -> bool {
        &&& after.config == before.config
        &&& after.system == before.system
        &&& after.diff.deep_view() == MonitorView::delta(before.config@, before.system@)
    }

    fn get_diff(&mut self) {
        let monitors = diff_set(&self.config.monitors, &self.system.monitors);
        self.diff = Diff {
            add: Monitor {
                monitors: monitors.add,
            },
            remove: Monitor {
                monitors: monitors.remove,
            },
        };
    }
}

impl FilesView {
    /// The delta between the desired and the observed text files.
    pub open spec fn delta(desired: FilesView, observed: FilesView) -> Diff<FilesView> {
        let files = set_delta(desired.files, observed.files);
        Diff {
            add: FilesView {
                files: files.add,
            },
            remove: FilesView {
                files: files.remove,
            },
        }
    }
}

impl GetDiff for FilesDiff {
    open spec fn diffed(before: FilesDiff, after: FilesDiff) -> bool {
        &&& after.config == before.config
        &&& after.system == before.system
        &&& after.diff.deep_view() == FilesView::delta(before.config@, before.system@)
    }

    fn get_diff(&mut self) {
        let files = diff_set(&self.config.files, &self.system.files);
        self.diff = Diff {
            add: Files {
                files: files.add,
            },
            remove: Files {
                files: files.remove,
            },
        };
    }
}

} // verus!
