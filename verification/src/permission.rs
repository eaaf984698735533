//! The permission checker: one state per category of privileged action, and
//! the rules by which a resource descriptor is granted or denied.
//!
//! Asking the operator is left to the embedder. A verdict of `Ask` says that
//! a question is due, and the operator's reply comes back as a plain value.

use crate::error::ErrorKind;
use crate::text::{chars_of, chars_of_all, copy_text, same_text, starts_with, texts, texts_of};
use vstd::prelude::*;

verus! {

/// The categories of privileged action.
#[derive(Clone, Copy, Debug, PartialEq, Eq, Structural)]
pub enum Category {
    Read,
    Write,
    Net,
    Env,
    Run,
    Plugin,
    HighResTime,
}

/// The state of one category, fixed when the worker is built.
pub enum CategoryState {
    /// Every resource is granted.
    Allow,
    /// A resource is granted if one of the patterns covers it.
    AllowList(Vec<Vec<char>>),
    /// No resource is granted.
    Deny,
    /// The operator is asked, once for each resource.
    Prompt,
}

/// A category's state as a mathematical value.
pub enum StateModel {
    Allow,
    AllowList(Seq<Seq<char>>),
    Deny,
    Prompt,
}

impl CategoryState {
    pub open spec fn view(&self) -> StateModel {
        match self {
            CategoryState::Allow => StateModel::Allow,
            CategoryState::AllowList(patterns) => StateModel::AllowList(texts(patterns@)),
            CategoryState::Deny => StateModel::Deny,
            CategoryState::Prompt => StateModel::Prompt,
        }
    }
}

/// What the rules find without the operator.
#[derive(Clone, Copy, Debug, PartialEq, Eq, Structural)]
pub enum Verdict {
    Granted,
    Denied,
    /// The category prompts and this resource was not confirmed yet.
    Ask,
}

/// What came of asking the operator.
#[derive(Clone, Copy, Debug, PartialEq, Eq, Structural)]
pub enum Reply {
    Confirm,
    Refuse,
    /// Nobody could be asked.
    Unavailable,
}

/// The outcome of a check.
#[derive(Clone, Copy, Debug, PartialEq, Eq, Structural)]
pub enum Access {
    Granted,
    Denied,
}

/// Whether `c` is a decimal digit.
pub open spec fn is_digit(c: char) -> bool {
    '0' <= c <= '9'
}

/// How many decimal digits `text` ends in.
pub open spec fn port_digits(text: Seq<char>) -> nat
    decreases text.len(),
{
    if text.len() > 0 && is_digit(text.last()) {
        1 + port_digits(text.drop_last())
    } else {
        0
    }
}

/// Where the port of `host:port` begins: the index of the colon that is
/// followed by nothing but one or more digits up to the end of `text`.
pub open spec fn port_at(text: Seq<char>) -> Option<int> {
    let digits = port_digits(text);
    if digits > 0 && text.len() > digits && text[text.len() - digits - 1] == ':' {
        Some(text.len() - digits - 1)
    } else {
        None
    }
}

/// Whether the component of `path` that begins at index `i` is `..`.
pub open spec fn is_parent_step(path: Seq<char>, i: int) -> bool {
    &&& 0 <= i
    &&& i + 2 <= path.len()
    &&& path[i] == '.'
    &&& path[i + 1] == '.'
    &&& (i == 0 || path[i - 1] == '/')
    &&& (i + 2 == path.len() || path[i + 2] == '/')
}

/// Whether `path` steps upward: one of its components is `..`.
pub open spec fn steps_up(path: Seq<char>) -> bool {
    exists|i: int| #[trigger] is_parent_step(path, i)
}

/// Whether the path `pattern` covers `path`: `path` is `pattern` itself or
/// lies below it. A prefix counts only where it ends at a separator, so
/// `/tmp` covers `/tmp/a` and not `/tmpfile`. A path that steps upward is
/// covered by nothing, for its text does not tell where it leads: `/tmp`
/// does not cover `/tmp/../etc`. The empty pattern covers nothing.
pub open spec fn path_covers(pattern: Seq<char>, path: Seq<char>) -> bool {
    &&& pattern.len() > 0
    &&& !steps_up(path)
    &&& pattern.is_prefix_of(path)
    &&& (pattern.len() == path.len() || pattern.last() == '/' || path[pattern.len() as int]
        == '/')
}

/// Whether the network pattern covers `target`: the two are the same text,
/// or the pattern names a host without a port and `target` is that host with
/// a port. The empty pattern covers nothing.
pub open spec fn host_covers(pattern: Seq<char>, target: Seq<char>) -> bool {
    &&& pattern.len() > 0
    &&& (pattern == target || (port_at(pattern) is None && port_at(target) == Some(
        pattern.len() as int,
    ) && pattern.is_prefix_of(target)))
}

/// Whether `pattern` covers `target` under the rule of `category`: paths for
/// the file system, `host[:port]` for the network, the same text elsewhere.
pub open spec fn covers(category: Category, pattern: Seq<char>, target: Seq<char>) -> bool {
    match category {
        Category::Read => path_covers(pattern, target),
        Category::Write => path_covers(pattern, target),
        Category::Net => host_covers(pattern, target),
        _ => pattern.len() > 0 && pattern == target,
    }
}

/// Whether one of `patterns` covers `target`.
pub open spec fn any_covers(
    category: Category,
    patterns: Seq<Seq<char>>,
    target: Seq<char>,
) -> bool {
    exists|i: int| 0 <= i < patterns.len() && covers(category, #[trigger] patterns[i], target)
}

/// The state of a category as configured: an allow-all flag wins, then a
/// list that is not empty; without either the category prompts where an
/// operator is at hand, and denies where none is.
pub open spec fn state_from(allow: bool, list: Seq<Seq<char>>, interactive: bool) -> StateModel {
    if allow {
        StateModel::Allow
    } else if list.len() > 0 {
        StateModel::AllowList(list)
    } else if interactive {
        StateModel::Prompt
    } else {
        StateModel::Deny
    }
}

/// The permissions of one worker as a mathematical value.
pub struct PermissionModel {
    pub read: StateModel,
    pub write: StateModel,
    pub net: StateModel,
    pub env: StateModel,
    pub run: StateModel,
    pub plugin: StateModel,
    pub hrtime: StateModel,
    /// The resources that the operator confirmed, each with its category.
    pub confirmed: Set<(Category, Seq<char>)>,
}

impl PermissionModel {
    /// The state of `category`.
    pub open spec fn state(self, category: Category) -> StateModel {
        match category {
            Category::Read => self.read,
            Category::Write => self.write,
            Category::Net => self.net,
            Category::Env => self.env,
            Category::Run => self.run,
            Category::Plugin => self.plugin,
            Category::HighResTime => self.hrtime,
        }
    }

    /// What the rules find for `target` without asking anybody.
    pub open spec fn decide(self, category: Category, target: Seq<char>) -> Verdict {
        match self.state(category) {
            StateModel::Allow => Verdict::Granted,
            StateModel::Deny => Verdict::Denied,
            StateModel::AllowList(patterns) => if any_covers(category, patterns, target) {
                Verdict::Granted
            } else {
                Verdict::Denied
            },
            StateModel::Prompt => if self.confirmed.contains((category, target)) {
                Verdict::Granted
            } else {
                Verdict::Ask
            },
        }
    }

    /// What the rules find for an op call, whose target may be missing.
    /// `Allow` and `Deny` decide without a target; the other two states need one.
    pub open spec fn decide_call(self, category: Category, target: Option<Seq<char>>) -> Result<
        Verdict,
        ErrorKind,
    > {
        match self.state(category) {
            StateModel::Allow => Ok(Verdict::Granted),
            StateModel::Deny => Ok(Verdict::Denied),
            _ => match target {
                Some(t) => Ok(self.decide(category, t)),
                None => Err(ErrorKind::InvalidInput),
            },
        }
    }

    /// The outcome of a check: the verdict, with a due question settled by
    /// `reply`. Only a confirmation grants.
    pub open spec fn settle(self, category: Category, target: Seq<char>, reply: Reply) -> Access {
        match self.decide(category, target) {
            Verdict::Granted => Access::Granted,
            Verdict::Denied => Access::Denied,
            Verdict::Ask => if reply == Reply::Confirm {
                Access::Granted
            } else {
                Access::Denied
            },
        }
    }

    /// The permissions after a check: a confirmation that was asked for is
    /// remembered for this one resource; nothing else ever changes.
    pub open spec fn record(self, category: Category, target: Seq<char>, reply: Reply) -> Self {
        if self.decide(category, target) == Verdict::Ask && reply == Reply::Confirm {
            PermissionModel { confirmed: self.confirmed.insert((category, target)), ..self }
        } else {
            self
        }
    }
}

/// Whether `c` is a decimal digit.
pub fn is_decimal(c: char) -> (b: bool)
    ensures
        b == is_digit(c),
{
    '0' <= c && c <= '9'
}

/// Finds the colon that starts the port of `text`, if `text` ends in one.
pub fn port_start(text: &Vec<char>) -> (r: Option<usize>)
    ensures
        match r {
            Some(i) => port_at(text@) == Some(i as int),
            None => port_at(text@) is None,
        },
{
    let n = text.len();
    let mut k: usize = 0;
    assert(text@.take(n as int) =~= text@);
    while k < n && is_decimal(text[n - 1 - k])
        invariant
            k <= n,
            n == text.len(),
            port_digits(text@) == k + port_digits(text@.take(n - k)),
        decreases n - k,
    {
        proof {
            let head = text@.take(n - k);
            assert(head.last() == text[n - 1 - k]);
            assert(head.drop_last() =~= text@.take(n - (k + 1)));
        }
        k += 1;
    }
    proof {
        let head = text@.take(n - k);
        if k < n {
            assert(head.last() == text[n - 1 - k]);
        }
        assert(port_digits(head) == 0);
    }
    if k > 0 && n > k && text[n - k - 1] == ':' {
        Some(n - k - 1)
    } else {
        None
    }
}

/// Whether `path` steps upward.
pub fn has_parent_step(path: &Vec<char>) -> (b: bool)
    ensures
        b == steps_up(path@),
{
    let n = path.len();
    if n < 2 {
        assert forall|j: int| !is_parent_step(path@, j) by {}
        return false;
    }
    let mut i: usize = 0;
    while i < n - 1
        invariant
            n == path.len(),
            n >= 2,
            i <= n - 1,
            forall|j: int| 0 <= j < i ==> !is_parent_step(path@, j),
        decreases n - i,
    {
        if path[i] == '.' && path[i + 1] == '.' && (i == 0 || path[i - 1] == '/') && (i + 2 == n
            || path[i + 2] == '/') {
            assert(is_parent_step(path@, i as int));
            return true;
        }
        i += 1;
    }
    assert forall|j: int| !is_parent_step(path@, j) by {
        if 0 <= j && j + 2 <= n {
            assert(j < i);
        }
    }
    false
}

/// Whether the path `pattern` covers `path`.
pub fn path_is_covered(pattern: &Vec<char>, path: &Vec<char>) -> (b: bool)
    ensures
        b == path_covers(pattern@, path@),
{
    let n = pattern.len();
    if n == 0 || has_parent_step(path) || !starts_with(path, pattern) {
        return false;
    }
    n == path.len() || pattern[n - 1] == '/' || path[n] == '/'
}

/// Whether the network pattern covers `target`.
pub fn host_is_covered(pattern: &Vec<char>, target: &Vec<char>) -> (b: bool)
    ensures
        b == host_covers(pattern@, target@),
{
    if pattern.len() == 0 {
        return false;
    }
    if same_text(pattern, target) {
        return true;
    }
    match port_start(pattern) {
        Some(_) => false,
        None => match port_start(target) {
            Some(i) => i == pattern.len() && starts_with(target, pattern),
            None => false,
        },
    }
}

/// Whether `pattern` covers `target` under the rule of `category`.
pub fn is_covered(category: Category, pattern: &Vec<char>, target: &Vec<char>) -> (b: bool)
    ensures
        b == covers(category, pattern@, target@),
{
    match category {
        Category::Read => path_is_covered(pattern, target),
        Category::Write => path_is_covered(pattern, target),
        Category::Net => host_is_covered(pattern, target),
        _ => pattern.len() > 0 && same_text(pattern, target),
    }
}

/// Whether one of `patterns` covers `target`.
pub fn is_covered_by_any(category: Category, patterns: &Vec<Vec<char>>, target: &Vec<char>) -> (b:
    bool)
    ensures
        b == any_covers(category, texts(patterns@), target@),
{
    let mut i: usize = 0;
    while i < patterns.len()
        invariant
            i <= patterns.len(),
            forall|j: int|
                0 <= j < i ==> !covers(category, #[trigger] texts(patterns@)[j], target@),
        decreases patterns.len() - i,
    {
        if is_covered(category, &patterns[i], target) {
            assert(covers(category, texts(patterns@)[i as int], target@));
            return true;
        }
        i += 1;
    }
    false
}

/// The permission configuration as the command line gives it: one allow-all
/// flag for each category, and a list of patterns for the file system and
/// for the network.
pub struct Flags {
    pub allow_read: bool,
    pub allow_write: bool,
    pub allow_net: bool,
    pub allow_env: bool,
    pub allow_run: bool,
    pub allow_plugin: bool,
    pub allow_hrtime: bool,
    pub read_allowlist: Vec<String>,
    pub write_allowlist: Vec<String>,
    pub net_allowlist: Vec<String>,
}

impl Flags {
    /// The configuration that allows nothing.
    pub fn deny_all() -> (flags: Flags)
        ensures
            !flags.allow_read && !flags.allow_write && !flags.allow_net && !flags.allow_env
                && !flags.allow_run && !flags.allow_plugin && !flags.allow_hrtime,
            flags.read_allowlist@.len() == 0,
            flags.write_allowlist@.len() == 0,
            flags.net_allowlist@.len() == 0,
    {
        Flags {
            allow_read: false,
            allow_write: false,
            allow_net: false,
            allow_env: false,
            allow_run: false,
            allow_plugin: false,
            allow_hrtime: false,
            read_allowlist: Vec::new(),
            write_allowlist: Vec::new(),
            net_allowlist: Vec::new(),
        }
    }

    /// The permissions that these flags stand for.
    pub open spec fn permissions(&self, interactive: bool) -> PermissionModel {
        PermissionModel {
            read: state_from(self.allow_read, texts_of(self.read_allowlist@), interactive),
            write: state_from(self.allow_write, texts_of(self.write_allowlist@), interactive),
            net: state_from(self.allow_net, texts_of(self.net_allowlist@), interactive),
            env: state_from(self.allow_env, Seq::empty(), interactive),
            run: state_from(self.allow_run, Seq::empty(), interactive),
            plugin: state_from(self.allow_plugin, Seq::empty(), interactive),
            hrtime: state_from(self.allow_hrtime, Seq::empty(), interactive),
            confirmed: Set::empty(),
        }
    }
}

/// The state of one category as configured.
fn configured(allow: bool, list: &Vec<String>, interactive: bool) -> (state: CategoryState)
    ensures
        state@ == state_from(allow, texts_of(list@), interactive),
{
    if allow {
        CategoryState::Allow
    } else if list.len() > 0 {
        let patterns = chars_of_all(list);
        assert(texts(patterns@).len() == texts_of(list@).len());
        CategoryState::AllowList(patterns)
    } else if interactive {
        CategoryState::Prompt
    } else {
        CategoryState::Deny
    }
}

/// A resource that the operator confirmed.
struct Confirmation {
    category: Category,
    target: Vec<char>,
}

/// The permission checker of one worker.
pub struct Permissions {
    read: CategoryState,
    write: CategoryState,
    net: CategoryState,
    env: CategoryState,
    run: CategoryState,
    plugin: CategoryState,
    hrtime: CategoryState,
    confirmed: Vec<Confirmation>,
}

impl Permissions {
    /// The permissions as a mathematical value.
    pub closed spec fn view(&self) -> PermissionModel {
        PermissionModel {
            read: self.read@,
            write: self.write@,
            net: self.net@,
            env: self.env@,
            run: self.run@,
            plugin: self.plugin@,
            hrtime: self.hrtime@,
            confirmed: Set::new(
                |p: (Category, Seq<char>)|
                    exists|i: int|
                        0 <= i < self.confirmed.len() && (#[trigger] self.confirmed[i]).category
                            == p.0 && self.confirmed[i].target@ == p.1,
            ),
        }
    }

    /// Permissions with the given state for each category and nothing confirmed.
    pub fn new(
        read: CategoryState,
        write: CategoryState,
        net: CategoryState,
        env: CategoryState,
        run: CategoryState,
        plugin: CategoryState,
        hrtime: CategoryState,
    ) -> (p: Permissions)
        ensures
            p@ == (PermissionModel {
                read: read@,
                write: write@,
                net: net@,
                env: env@,
                run: run@,
                plugin: plugin@,
                hrtime: hrtime@,
                confirmed: Set::empty(),
            }),
    {
        let p = Permissions { read, write, net, env, run, plugin, hrtime, confirmed: Vec::new() };
        assert(p@.confirmed =~= Set::empty());
        p
    }

    /// The permissions that `flags` configure. `interactive` says whether an
    /// operator can be asked.
    pub fn from_flags(flags: &Flags, interactive: bool) -> (p: Permissions)
        ensures
            p@ == flags.permissions(interactive),
    {
        let none: Vec<String> = Vec::new();
        assert(texts_of(none@) =~= Seq::<Seq<char>>::empty());
        Permissions::new(
            configured(flags.allow_read, &flags.read_allowlist, interactive),
            configured(flags.allow_write, &flags.write_allowlist, interactive),
            configured(flags.allow_net, &flags.net_allowlist, interactive),
            configured(flags.allow_env, &none, interactive),
            configured(flags.allow_run, &none, interactive),
            configured(flags.allow_plugin, &none, interactive),
            configured(flags.allow_hrtime, &none, interactive),
        )
    }

    /// The state of `category`.
    pub fn state(&self, category: Category) -> (state: &CategoryState)
        ensures
            state@ == self@.state(category),
    {
        match category {
            Category::Read => &self.read,
            Category::Write => &self.write,
            Category::Net => &self.net,
            Category::Env => &self.env,
            Category::Run => &self.run,
            Category::Plugin => &self.plugin,
            Category::HighResTime => &self.hrtime,
        }
    }

    /// Whether the operator confirmed `target` for `category`.
    fn is_confirmed(&self, category: Category, target: &Vec<char>) -> (b: bool)
        ensures
            b == self@.confirmed.contains((category, target@)),
    {
        let mut i: usize = 0;
        while i < self.confirmed.len()
            invariant
                i <= self.confirmed.len(),
                forall|j: int|
                    0 <= j < i ==> !((#[trigger] self.confirmed[j]).category == category
                        && self.confirmed[j].target@ == target@),
            decreases self.confirmed.len() - i,
        {
            if self.confirmed[i].category == category && same_text(
                &self.confirmed[i].target,
                target,
            ) {
                return true;
            }
            i += 1;
        }
        false
    }

    /// What the rules find for `target` without asking anybody.
    pub fn decide_text(&self, category: Category, target: &Vec<char>) -> (verdict: Verdict)
        ensures
            verdict == self@.decide(category, target@),
    {
        match self.state(category) {
            CategoryState::Allow => Verdict::Granted,
            CategoryState::Deny => Verdict::Denied,
            CategoryState::AllowList(patterns) => {
                if is_covered_by_any(category, patterns, target) {
                    Verdict::Granted
                } else {
                    Verdict::Denied
                }
            },
            CategoryState::Prompt => {
                if self.is_confirmed(category, target) {
                    Verdict::Granted
                } else {
                    Verdict::Ask
                }
            },
        }
    }

    /// What the rules find for `target` without asking anybody.
    pub fn decide(&self, category: Category, target: &str) -> (verdict: Verdict)
        ensures
            verdict == self@.decide(category, target@),
    {
        let text = chars_of(target);
        self.decide_text(category, &text)
    }

    /// What the rules find for an op call, whose target may be missing.
    pub fn decide_call(&self, category: Category, target: &Option<Vec<char>>) -> (r: Result<
        Verdict,
        ErrorKind,
    >)
        ensures
            r == self@.decide_call(
                category,
                match target {
                    Some(t) => Some(t@),
                    None => None,
                },
            ),
    {
        match self.state(category) {
            CategoryState::Allow => Ok(Verdict::Granted),
            CategoryState::Deny => Ok(Verdict::Denied),
            _ => match target {
                Some(t) => Ok(self.decide_text(category, t)),
                None => Err(ErrorKind::InvalidInput),
            },
        }
    }

    /// Checks `target` against `category`. Where the category prompts and
    /// the resource is not confirmed yet, `reply` is the operator's answer:
    /// a confirmation grants and is remembered for this resource alone; any
    /// other reply denies. In every other case `reply` is not looked at.
    pub fn check_text(&mut self, category: Category, target: &Vec<char>, reply: Reply) -> (access:
        Access)
        ensures
            access == old(self)@.settle(category, target@, reply),
            final(self)@ == old(self)@.record(category, target@, reply),
    {
        match self.decide_text(category, target) {
            Verdict::Granted => Access::Granted,
            Verdict::Denied => Access::Denied,
            Verdict::Ask => match reply {
                Reply::Confirm => {
                    let ghost before = self.confirmed@;
                    self.confirmed.push(Confirmation { category, target: copy_text(target) });
                    proof {
                        let grown = old(self)@.confirmed.insert((category, target@));
                        let now = self@.confirmed;
                        assert forall|p: (Category, Seq<char>)| grown.contains(p) implies now.contains(
                            p,
                        ) by {
                            if p == (category, target@) {
                                assert(self.confirmed[before.len() as int].category == p.0);
                            } else {
                                let i = choose|i: int|
                                    0 <= i < before.len() && (#[trigger] before[i]).category
                                        == p.0 && before[i].target@ == p.1;
                                assert(self.confirmed[i].category == p.0);
                            }
                        }
                        let list = self.confirmed@;
                        assert forall|p: (Category, Seq<char>)| now.contains(p) implies grown.contains(
                            p,
                        ) by {
                            let i = choose|i: int|
                                0 <= i < list.len() && (#[trigger] list[i]).category == p.0
                                    && list[i].target@ == p.1;
                            if i < before.len() {
                                assert(before[i].category == p.0);
                            }
                        }
                        assert(self@.confirmed =~= grown);
                    }
                    Access::Granted
                },
                _ => Access::Denied,
            },
        }
    }

    /// Checks `target` against `category`; see `check_text`.
    pub fn check(&mut self, category: Category, target: &str, reply: Reply) -> (access: Access)
        ensures
            access == old(self)@.settle(category, target@, reply),
            final(self)@ == old(self)@.record(category, target@, reply),
    {
        let text = chars_of(target);
        self.check_text(category, &text, reply)
    }
}

/// A category that denies, denies every resource whatever the operator
/// would say, and the check leaves the permissions as they were.
pub proof fn law_deny_is_total(
    p: PermissionModel,
    category: Category,
    target: Seq<char>,
    reply: Reply,
)
    requires
        p.state(category) is Deny,
    ensures
        p.decide(category, target) == Verdict::Denied,
        p.decide_call(category, None) == Ok::<Verdict, ErrorKind>(Verdict::Denied),
        p.settle(category, target, reply) == Access::Denied,
        p.record(category, target, reply) == p,
{
}

/// Under an allow-list a resource is granted exactly if one of the patterns
/// covers it, and the operator is never asked.
pub proof fn law_allow_list_decides(
    p: PermissionModel,
    category: Category,
    target: Seq<char>,
    reply: Reply,
)
    requires
        p.state(category) is AllowList,
    ensures
        p.settle(category, target, reply) == (if any_covers(
            category,
            p.state(category)->AllowList_0,
            target,
        ) {
            Access::Granted
        } else {
            Access::Denied
        }),
        p.record(category, target, reply) == p,
{
}

/// A check changes the answer for no other resource: for every category and
/// target other than the pair that was checked, the verdict afterwards is
/// the verdict before. A confirmation of one resource grants no other.
pub proof fn law_confirmation_is_local(
    p: PermissionModel,
    category: Category,
    target: Seq<char>,
    reply: Reply,
    other_category: Category,
    other_target: Seq<char>,
)
    requires
        (other_category, other_target) != (category, target),
    ensures
        p.record(category, target, reply).decide(other_category, other_target) == p.decide(
            other_category,
            other_target,
        ),
{
}

/// A check never changes the state of a category, never forgets a
/// confirmation, and adds at most the one that was just given.
pub proof fn law_states_never_change(
    p: PermissionModel,
    category: Category,
    target: Seq<char>,
    reply: Reply,
    any: Category,
)
    ensures
        p.record(category, target, reply).state(any) == p.state(any),
        p.confirmed.subset_of(p.record(category, target, reply).confirmed),
        p.record(category, target, reply).confirmed.subset_of(
            p.confirmed.insert((category, target)),
        ),
        p.record(category, target, reply) != p ==> p.state(category) is Prompt && reply
            == Reply::Confirm,
{
}

} // verus!
