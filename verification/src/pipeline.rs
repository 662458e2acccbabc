//! The moderation pipeline: a per-message decision state machine. Each
//! inbound message opens a session; the session hands the driver one
//! outbound action at a time (delete, send, membership query, log
//! append, schedule a deletion) and the driver feeds back the outcome of
//! each action — after its own retries — as an event. All decisions,
//! including every whitelist mutation, happen here; the driver only
//! performs I/O.

use vstd::prelude::*;
use vstd::string::StringExecFns;
use crate::{ChatId, MemberStatus, MessageId, MessageRef, UserId, eligible, spec_eligible};
use crate::command::{Command, parse_command, parse_command_spec};
use crate::patterns::{PatternMatcher, matches_spec};
use crate::whitelist::{WhitelistStore, entry_line};

verus! {

/// How long a transient notice stays before its scheduled deletion.
pub const NOTICE_DELETE_DELAY_MS: u64 = 30000;

/// One inbound message, as the dispatch layer hands it over.
pub struct MessageInfo {
    /// The author; absent for system messages with no author.
    pub sender: Option<UserId>,
    /// The author's first name, used to personalize notices.
    pub first_name: String,
    /// The author's account name, preferred for the whitelist entry.
    pub username: Option<String>,
    pub chat: ChatId,
    pub message_id: MessageId,
    /// The text, absent for non-text content.
    pub text: Option<String>,
}

/// A bot-authored transient notice.
pub enum Notice {
    StartAlreadyVerified,
    StartInstructions,
    ConfirmAlreadyVerified,
    Verified,
    AdminVerified,
    PersistFailed,
    MustBeMember,
    CheckFailed,
    PleaseConfirm { first_name: String },
    RulesViolation { first_name: String },
}

impl Notice {
    /// The wording of the notice.
    pub open spec fn text_spec(&self) -> Seq<char> {
        match self {
            Notice::StartAlreadyVerified => "✅ Вы уже подтверждены!"@,
            Notice::StartInstructions => "👋 Для доступа к группе:\n1. Оставайтесь в группе\n2. Отправьте /confirm здесь"@,
            Notice::ConfirmAlreadyVerified => "ℹ️ Вы уже подтверждены"@,
            Notice::Verified => "✅ Вы подтверждены!"@,
            Notice::AdminVerified => "👑 Админ подтверждён!"@,
            Notice::PersistFailed => "⚠️ Ошибка. Попробуйте позже"@,
            Notice::MustBeMember => "❌ Вы должны быть участником группы для подтверждения!"@,
            Notice::CheckFailed => "⚠️ Ошибка проверки членства в группе. Попробуйте позже."@,
            Notice::PleaseConfirm { first_name } => first_name@ + ", для доступа отправьте /confirm"@,
            Notice::RulesViolation { first_name } => first_name@
                + ", ваше сообщение нарушает правила чата!"@,
        }
    }

    /// Renders the notice, as `text_spec` describes.
    pub fn text(&self) -> (r: String)
        ensures
            r@ == self.text_spec(),
    {
        match self {
            Notice::StartAlreadyVerified => String::from_str("✅ Вы уже подтверждены!"),
            Notice::StartInstructions => String::from_str(
                "👋 Для доступа к группе:\n1. Оставайтесь в группе\n2. Отправьте /confirm здесь",
            ),
            Notice::ConfirmAlreadyVerified => String::from_str("ℹ️ Вы уже подтверждены"),
            Notice::Verified => String::from_str("✅ Вы подтверждены!"),
            Notice::AdminVerified => String::from_str("👑 Админ подтверждён!"),
            Notice::PersistFailed => String::from_str("⚠️ Ошибка. Попробуйте позже"),
            Notice::MustBeMember => String::from_str(
                "❌ Вы должны быть участником группы для подтверждения!",
            ),
            Notice::CheckFailed => String::from_str(
                "⚠️ Ошибка проверки членства в группе. Попробуйте позже.",
            ),
            Notice::PleaseConfirm { first_name } => String::from_str(first_name.as_str()).concat(
                ", для доступа отправьте /confirm",
            ),
            Notice::RulesViolation { first_name } => String::from_str(first_name.as_str()).concat(
                ", ваше сообщение нарушает правила чата!",
            ),
        }
    }
}

/// An outbound step the driver must perform for a session.
pub enum Action {
    /// Delete the message, best-effort and retried.
    Delete { target: MessageRef },
    /// Send the notice to the chat, retried.
    Send { chat: ChatId, notice: Notice },
    /// Look up the user's membership status in the reference group,
    /// retried.
    QueryMembership { group: ChatId, user: UserId },
    /// Append this line durably to the whitelist log.
    Append { line: String },
    /// Register a deferred deletion with the scheduler; fire-and-forget.
    ScheduleDeletion { target: MessageRef, delay_ms: u64 },
}

/// The outcome of a performed action, reported after the driver's own
/// retries are spent.
#[derive(Clone, Copy, PartialEq, Eq, Structural, Debug)]
pub enum Event {
    /// The send succeeded; the notice got this message id.
    Delivered { message: MessageId },
    SendFailed,
    DeleteDone,
    DeleteFailed,
    /// The membership query succeeded with this status.
    MemberStatusIs { status: MemberStatus },
    /// The membership query failed after retries.
    MemberStatusUnknown,
    AppendOk,
    AppendFailed,
}

/// Where a session stands: which action's outcome it awaits.
#[derive(Clone, Copy, PartialEq, Eq, Structural, Debug)]
pub enum Phase {
    /// A start-command status notice was sent.
    AwaitStartSend,
    /// The triggering confirm command is being deleted.
    AwaitConfirmDelete,
    /// The reference group is being queried.
    AwaitMembership,
    /// The whitelist log append is in flight; `admin` keeps the cosmetic
    /// wording distinction, nothing more.
    AwaitPersist { admin: bool },
    /// The final notice of the session was sent.
    AwaitNoticeSend,
    /// An unverified user's message is being deleted.
    AwaitUnlistedDelete,
    /// A rule-violating message is being deleted.
    AwaitForbiddenDelete,
    /// Nothing more to do.
    Finished,
}

/// One in-flight moderation session, opened per inbound message.
pub struct Session {
    pub phase: Phase,
    pub user: UserId,
    pub chat: ChatId,
    pub message_id: MessageId,
    /// The configured reference group.
    pub group: ChatId,
    pub first_name: String,
    /// What a whitelist entry would record: the account name, or the
    /// first name without one.
    pub display_name: String,
    pub has_text: bool,
}

/// The command a message carries, if its text parses as one.
pub open spec fn msg_command(m: MessageInfo) -> Option<Command> {
    match m.text {
        Option::Some(t) => parse_command_spec(t@),
        Option::None => Option::None,
    }
}

/// The name a whitelist entry for the sender would carry.
pub open spec fn display_name_of(m: MessageInfo) -> Seq<char> {
    match m.username {
        Option::Some(u) => u@,
        Option::None => m.first_name@,
    }
}

/// The session fields every phase shares, taken from the message.
pub open spec fn session_base_ok(s: Session, m: MessageInfo, group: ChatId) -> bool {
    &&& m.sender == Option::Some(s.user)
    &&& s.chat == m.chat
    &&& s.message_id == m.message_id
    &&& s.group == group
    &&& s.first_name@ == m.first_name@
    &&& s.display_name@ == display_name_of(m)
    &&& s.has_text == (m.text is Some)
}

/// The session after `pre`, identical but for its phase.
pub open spec fn same_but_phase(post: Session, pre: Session, phase: Phase) -> bool {
    post == (Session { phase, ..pre })
}

/// The confirmation wording: a cosmetic distinction by role, the granted
/// status is identical.
pub open spec fn verified_notice(admin: bool) -> Notice {
    if admin {
        Notice::AdminVerified
    } else {
        Notice::Verified
    }
}

/// What opening a session for message `m` must give, with the whitelist
/// at `wl` and the rules at `pre`/`sub`:
/// - no author: nothing at all;
/// - a start command: a status notice by current membership;
/// - a confirm command: first delete the triggering message;
/// - plain content from an unverified author: delete it;
/// - text from a verified author that violates the rules: delete it;
/// - anything else from a verified author: leave it alone.
pub open spec fn start_ok(
    m: MessageInfo,
    group: ChatId,
    wl: Set<u64>,
    pre: Seq<Seq<char>>,
    sub: Seq<Seq<char>>,
    r: Option<(Session, Action)>,
) -> bool {
    match m.sender {
        Option::None => r is None,
        Option::Some(u) => match msg_command(m) {
            Option::Some(Command::Start) => r matches Option::Some((s, a)) && session_base_ok(
                s,
                m,
                group,
            ) && s.phase == Phase::AwaitStartSend && (a matches Action::Send { chat, notice }
                && chat == m.chat && notice == if wl.contains(u.0) {
                Notice::StartAlreadyVerified
            } else {
                Notice::StartInstructions
            }),
            Option::Some(Command::Confirm) => r matches Option::Some((s, a)) && session_base_ok(
                s,
                m,
                group,
            ) && s.phase == Phase::AwaitConfirmDelete && (a matches Action::Delete { target }
                && target == (MessageRef { chat: m.chat, message: m.message_id })),
            Option::None => {
                if !wl.contains(u.0) {
                    r matches Option::Some((s, a)) && session_base_ok(s, m, group) && s.phase
                        == Phase::AwaitUnlistedDelete && (a matches Action::Delete { target }
                        && target == (MessageRef { chat: m.chat, message: m.message_id }))
                } else if m.text matches Option::Some(t) && matches_spec(pre, sub, t@) {
                    r matches Option::Some((s, a)) && session_base_ok(s, m, group) && s.phase
                        == Phase::AwaitForbiddenDelete && (a matches Action::Delete { target }
                        && target == (MessageRef { chat: m.chat, message: m.message_id }))
                } else {
                    r is None
                }
            },
        },
    }
}

/// Which outcomes a session in `phase` can be handed: exactly those of
/// the action it last gave out.
pub open spec fn event_fits(phase: Phase, ev: Event) -> bool {
    match phase {
        Phase::AwaitStartSend | Phase::AwaitNoticeSend => ev is Delivered || ev is SendFailed,
        Phase::AwaitConfirmDelete | Phase::AwaitUnlistedDelete | Phase::AwaitForbiddenDelete => ev
            is DeleteDone || ev is DeleteFailed,
        Phase::AwaitMembership => ev is MemberStatusIs || ev is MemberStatusUnknown,
        Phase::AwaitPersist { .. } => ev is AppendOk || ev is AppendFailed,
        Phase::Finished => false,
    }
}

/// The transition table of a session: from the session `pre` and the
/// whitelist `wl0`, event `ev` must lead to session `post`, whitelist
/// `wl1` and action `act`. The whitelist changes on no transition but a
/// successful log append, which commits exactly the sender.
pub open spec fn step_ok(
    pre: Session,
    wl0: Set<u64>,
    ev: Event,
    post: Session,
    wl1: Set<u64>,
    act: Option<Action>,
) -> bool {
    match pre.phase {
        // a sent notice is scheduled for deletion; a failed send ends
        // the session with nothing more
        Phase::AwaitStartSend | Phase::AwaitNoticeSend => match ev {
            Event::Delivered { message } => wl1 == wl0 && same_but_phase(post, pre, Phase::Finished)
                && (act matches Option::Some(Action::ScheduleDeletion { target, delay_ms })
                && target == (MessageRef { chat: pre.chat, message }) && delay_ms
                == NOTICE_DELETE_DELAY_MS),
            Event::SendFailed => wl1 == wl0 && same_but_phase(post, pre, Phase::Finished) && act
                is None,
            _ => false,
        },
        // once the confirm command is gone: an already verified sender
        // just hears so; otherwise the reference group is consulted
        Phase::AwaitConfirmDelete => match ev {
            Event::DeleteDone => wl1 == wl0 && if wl0.contains(pre.user.0) {
                same_but_phase(post, pre, Phase::AwaitNoticeSend) && (act matches Option::Some(
                    Action::Send { chat, notice },
                ) && chat == pre.chat && notice is ConfirmAlreadyVerified)
            } else {
                same_but_phase(post, pre, Phase::AwaitMembership) && (act matches Option::Some(
                    Action::QueryMembership { group, user },
                ) && group == pre.group && user == pre.user)
            },
            Event::DeleteFailed => wl1 == wl0 && same_but_phase(post, pre, Phase::Finished) && act
                is None,
            _ => false,
        },
        // an eligible member's entry goes to the log before anything is
        // granted; the ineligible and the unknown only hear a notice
        Phase::AwaitMembership => match ev {
            Event::MemberStatusIs { status } => wl1 == wl0 && if spec_eligible(status) {
                if wl0.contains(pre.user.0) {
                    same_but_phase(post, pre, Phase::AwaitNoticeSend) && (act
                        matches Option::Some(Action::Send { chat, notice }) && chat == pre.chat
                        && notice == verified_notice(!(status is Member)))
                } else {
                    same_but_phase(post, pre, Phase::AwaitPersist { admin: !(status is Member) })
                        && (act matches Option::Some(Action::Append { line }) && line@
                        == entry_line(pre.user.0, pre.display_name@))
                }
            } else {
                same_but_phase(post, pre, Phase::AwaitNoticeSend) && (act matches Option::Some(
                    Action::Send { chat, notice },
                ) && chat == pre.chat && notice is MustBeMember)
            },
            Event::MemberStatusUnknown => wl1 == wl0 && same_but_phase(
                post,
                pre,
                Phase::AwaitNoticeSend,
            ) && (act matches Option::Some(Action::Send { chat, notice }) && chat == pre.chat
                && notice is CheckFailed),
            _ => false,
        },
        // only a durable append commits membership; a failed one grants
        // nothing and asks the user to retry later
        Phase::AwaitPersist { admin } => match ev {
            Event::AppendOk => wl1 == wl0.insert(pre.user.0) && same_but_phase(
                post,
                pre,
                Phase::AwaitNoticeSend,
            ) && (act matches Option::Some(Action::Send { chat, notice }) && chat == pre.chat
                && notice == verified_notice(admin)),
            Event::AppendFailed => wl1 == wl0 && same_but_phase(post, pre, Phase::AwaitNoticeSend)
                && (act matches Option::Some(Action::Send { chat, notice }) && chat == pre.chat
                && notice is PersistFailed),
            _ => false,
        },
        // the deletion is best-effort: either way, a text message earns
        // the sender a personalized pointer to the confirm command
        Phase::AwaitUnlistedDelete => match ev {
            Event::DeleteDone | Event::DeleteFailed => wl1 == wl0 && if pre.has_text {
                same_but_phase(post, pre, Phase::AwaitNoticeSend) && (act matches Option::Some(
                    Action::Send { chat, notice },
                ) && chat == pre.chat && (notice matches Notice::PleaseConfirm { first_name }
                    && first_name@ == pre.first_name@))
            } else {
                same_but_phase(post, pre, Phase::Finished) && act is None
            },
            _ => false,
        },
        // likewise best-effort, and the author is told the rules were
        // violated
        Phase::AwaitForbiddenDelete => match ev {
            Event::DeleteDone | Event::DeleteFailed => wl1 == wl0 && same_but_phase(
                post,
                pre,
                Phase::AwaitNoticeSend,
            ) && (act matches Option::Some(Action::Send { chat, notice }) && chat == pre.chat
                && (notice matches Notice::RulesViolation { first_name } && first_name@
                == pre.first_name@)),
            _ => false,
        },
        Phase::Finished => false,
    }
}

/// Law: verified status is never revoked. No step of any session removes
/// a user from the whitelist.
pub proof fn lemma_whitelist_monotone(
    pre: Session,
    wl0: Set<u64>,
    ev: Event,
    post: Session,
    wl1: Set<u64>,
    act: Option<Action>,
)
    requires
        step_ok(pre, wl0, ev, post, wl1, act),
    ensures
        wl0.subset_of(wl1),
{
}

/// Law: the whitelist grows only when a durable log append is
/// acknowledged, and then by exactly the session's sender.
pub proof fn lemma_whitelist_grows_only_by_commit(
    pre: Session,
    wl0: Set<u64>,
    ev: Event,
    post: Session,
    wl1: Set<u64>,
    act: Option<Action>,
)
    requires
        step_ok(pre, wl0, ev, post, wl1, act),
    ensures
        wl1 == wl0 || ((pre.phase matches Phase::AwaitPersist { .. }) && ev is AppendOk && wl1
            == wl0.insert(pre.user.0)),
{
}

/// How far a session still has to go; `Finished` is rank zero.
pub open spec fn phase_rank(p: Phase) -> nat {
    match p {
        Phase::Finished => 0,
        Phase::AwaitStartSend | Phase::AwaitNoticeSend => 1,
        Phase::AwaitPersist { .. } => 2,
        Phase::AwaitUnlistedDelete | Phase::AwaitForbiddenDelete => 2,
        Phase::AwaitMembership => 3,
        Phase::AwaitConfirmDelete => 4,
    }
}

/// Law: every step brings the session strictly closer to its end, so a
/// session is over after at most four events.
pub proof fn lemma_session_progress(
    pre: Session,
    wl0: Set<u64>,
    ev: Event,
    post: Session,
    wl1: Set<u64>,
    act: Option<Action>,
)
    requires
        step_ok(pre, wl0, ev, post, wl1, act),
    ensures
        phase_rank(post.phase) < phase_rank(pre.phase),
{
}

impl Session {
    /// Opens a session for one inbound message and hands out its first
    /// action, as `start_ok` describes; `None` means the message needs
    /// nothing — no author, or clean content from a verified sender.
    pub fn start(
        msg: &MessageInfo,
        group: ChatId,
        store: &WhitelistStore,
        matcher: &PatternMatcher,
    ) -> (r: Option<(Session, Action)>)
        ensures
            start_ok(*msg, group, store@, matcher.prefixes(), matcher.substrings(), r),
    {
        let sender: UserId = match &msg.sender {
            Option::Some(u) => *u,
            Option::None => {
                return None;
            },
        };
        let listed = store.is_whitelisted(sender);
        let cmd = match &msg.text {
            Option::Some(t) => parse_command(t.as_str()),
            Option::None => Option::None,
        };
        let display_name = match &msg.username {
            Option::Some(u) => u.clone(),
            Option::None => msg.first_name.clone(),
        };
        let target = MessageRef { chat: msg.chat, message: msg.message_id };
        let phase: Phase = match cmd {
            Option::Some(Command::Start) => Phase::AwaitStartSend,
            Option::Some(Command::Confirm) => Phase::AwaitConfirmDelete,
            Option::None => {
                if !listed {
                    Phase::AwaitUnlistedDelete
                } else {
                    match &msg.text {
                        Option::Some(t) => {
                            if matcher.matches(t.as_str()) {
                                Phase::AwaitForbiddenDelete
                            } else {
                                return None;
                            }
                        },
                        Option::None => {
                            return None;
                        },
                    }
                }
            },
        };
        let session = Session {
            phase,
            user: sender,
            chat: msg.chat,
            message_id: msg.message_id,
            group,
            first_name: msg.first_name.clone(),
            display_name,
            has_text: msg.text.is_some(),
        };
        let action = match phase {
            Phase::AwaitStartSend => Action::Send {
                chat: msg.chat,
                notice: if listed {
                    Notice::StartAlreadyVerified
                } else {
                    Notice::StartInstructions
                },
            },
            _ => Action::Delete { target },
        };
        Some((session, action))
    }

    /// Feeds the outcome of the session's last action back in; the
    /// session moves and hands out the next action, as `step_ok`
    /// describes. The store changes exactly when a durable append is
    /// acknowledged.
    pub fn on_event(&mut self, store: &mut WhitelistStore, ev: &Event) -> (r: Option<Action>)
        requires
            event_fits(old(self).phase, *ev),
        ensures
            step_ok(*old(self), old(store)@, *ev, *final(self), final(store)@, r),
    {
        let phase = self.phase;
        match phase {
            Phase::AwaitStartSend | Phase::AwaitNoticeSend => match ev {
                Event::Delivered { message } => {
                    self.phase = Phase::Finished;
                    Some(
                        Action::ScheduleDeletion {
                            target: MessageRef { chat: self.chat, message: *message },
                            delay_ms: NOTICE_DELETE_DELAY_MS,
                        },
                    )
                },
                _ => {
                    self.phase = Phase::Finished;
                    None
                },
            },
            Phase::AwaitConfirmDelete => match ev {
                Event::DeleteDone => {
                    if store.is_whitelisted(self.user) {
                        self.phase = Phase::AwaitNoticeSend;
                        Some(
                            Action::Send {
                                chat: self.chat,
                                notice: Notice::ConfirmAlreadyVerified,
                            },
                        )
                    } else {
                        self.phase = Phase::AwaitMembership;
                        Some(Action::QueryMembership { group: self.group, user: self.user })
                    }
                },
                _ => {
                    self.phase = Phase::Finished;
                    None
                },
            },
            Phase::AwaitMembership => match ev {
                Event::MemberStatusIs { status } => {
                    if eligible(*status) {
                        let admin = !matches!(status, MemberStatus::Member);
                        match store.prepare_add(self.user, self.display_name.as_str()) {
                            Option::Some(line) => {
                                self.phase = Phase::AwaitPersist { admin };
                                Some(Action::Append { line })
                            },
                            Option::None => {
                                self.phase = Phase::AwaitNoticeSend;
                                Some(
                                    Action::Send {
                                        chat: self.chat,
                                        notice: if admin {
                                            Notice::AdminVerified
                                        } else {
                                            Notice::Verified
                                        },
                                    },
                                )
                            },
                        }
                    } else {
                        self.phase = Phase::AwaitNoticeSend;
                        Some(Action::Send { chat: self.chat, notice: Notice::MustBeMember })
                    }
                },
                _ => {
                    self.phase = Phase::AwaitNoticeSend;
                    Some(Action::Send { chat: self.chat, notice: Notice::CheckFailed })
                },
            },
            Phase::AwaitPersist { admin } => match ev {
                Event::AppendOk => {
                    if !store.is_whitelisted(self.user) {
                        store.commit_add(self.user);
                    }
                    proof {
                        assert(store@ =~= old(store)@.insert(old(self).user.0));
                    }
                    self.phase = Phase::AwaitNoticeSend;
                    Some(
                        Action::Send {
                            chat: self.chat,
                            notice: if admin {
                                Notice::AdminVerified
                            } else {
                                Notice::Verified
                            },
                        },
                    )
                },
                _ => {
                    self.phase = Phase::AwaitNoticeSend;
                    Some(Action::Send { chat: self.chat, notice: Notice::PersistFailed })
                },
            },
            Phase::AwaitUnlistedDelete => {
                if self.has_text {
                    self.phase = Phase::AwaitNoticeSend;
                    Some(
                        Action::Send {
                            chat: self.chat,
                            notice: Notice::PleaseConfirm { first_name: self.first_name.clone() },
                        },
                    )
                } else {
                    self.phase = Phase::Finished;
                    None
                }
            },
            Phase::AwaitForbiddenDelete => {
                self.phase = Phase::AwaitNoticeSend;
                Some(
                    Action::Send {
                        chat: self.chat,
                        notice: Notice::RulesViolation { first_name: self.first_name.clone() },
                    },
                )
            },
            Phase::Finished => None,
        }
    }

    /// Whether the session is over.
    pub fn finished(&self) -> (r: bool)
        ensures
            r == (self.phase is Finished),
    {
        matches!(self.phase, Phase::Finished)
    }
}

} // verus!
