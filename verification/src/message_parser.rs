use vstd::prelude::*;

use crate::config::{Member, System};
use crate::regex_ops::member_pattern_captures;
use crate::regex_ops::capture_member_pattern;
use crate::regex_ops::{regex_replace_all, regex_replace_first, sed_replace_all, sed_replace_first,
    SedFlags};
use crate::text::{find_non_space, find_space, lemma_skip_spaces, lemma_token_end, skip_spaces,
    spec_split, spec_trim, split_by, str_eq, token_end, trim};
use crate::types::{FullMessage, MemberId, MessageId, Timestamp, UserId};

verus! {

/// What parsing a user mention like `<@123>` yields.
pub uninterp spec fn user_mention_id(text: Seq<char>) -> Option<u64>;

/// Relies on twilight_mention's ParseMention for user ids: the parse of a
/// mention token depends on the text alone.
#[verifier::external_body]
fn parse_user_mention(text: &str) -> (r: Option<u64>)
    ensures
        r == user_mention_id(text@),
{
    match <twilight_model::id::Id<
        twilight_model::id::marker::UserMarker,
    > as twilight_mention::ParseMention>::parse(text) {
        Ok(id) => Some(id.get()),
        Err(_) => None,
    }
}

/// The classification of one incoming reference-user message.
pub enum ParsedMessage {
    Command(Command),
    /// Delete the message and latch onto the member without re-sending.
    SetProxyAndDelete(MemberId),
    ProxiedMessage { member_id: MemberId, message_content: String, latch: bool },
    UnproxiedMessage,
    LatchClear(MemberId),
    /// Reaction hooks; not yet produced by the parser.
    EmoteAdd(MemberId, MessageId, ()),
    EmoteRemove(MemberId, MessageId, ()),
}

/// A parsed `!` command.
pub enum Command {
    Edit(MemberId, MessageId, String),
    Reproxy(MemberId, MessageId),
    Nick(MemberId, String),
    Delete(MessageId),
    ReloadSystemConfig,
    ExitSeance,
    UnknownCommand,
    InvalidCommand,
}

/// Mathematical form of a classification, over sequences instead of strings.
pub enum SpecParsed {
    Command(SpecCommand),
    SetProxyAndDelete(int),
    Proxied { member: int, content: Seq<char>, latch: bool },
    Unproxied,
    LatchClear(int),
}

/// Mathematical form of a parsed command.
pub enum SpecCommand {
    Edit(int, MessageId, Seq<char>),
    Reproxy(int, MessageId),
    Nick(int, Seq<char>),
    Unknown,
    Invalid,
}

/// Whether the executable classification `p` denotes the mathematical one `s`.
pub open spec fn command_denotes(c: Command, s: SpecCommand) -> bool {
    match (c, s) {
        (Command::Edit(m, id, t), SpecCommand::Edit(sm, sid, st)) => m as int == sm && id == sid
            && t@ == st,
        (Command::Reproxy(m, id), SpecCommand::Reproxy(sm, sid)) => m as int == sm && id == sid,
        (Command::Nick(m, t), SpecCommand::Nick(sm, st)) => m as int == sm && t@ == st,
        (Command::UnknownCommand, SpecCommand::Unknown) => true,
        (Command::InvalidCommand, SpecCommand::Invalid) => true,
        _ => false,
    }
}

/// Whether the executable classification `p` denotes the mathematical one `s`.
pub open spec fn parsed_denotes(p: ParsedMessage, s: SpecParsed) -> bool {
    match (p, s) {
        (ParsedMessage::Command(c), SpecParsed::Command(sc)) => command_denotes(c, sc),
        (ParsedMessage::SetProxyAndDelete(m), SpecParsed::SetProxyAndDelete(sm)) => m as int == sm,
        (
            ParsedMessage::ProxiedMessage { member_id, message_content, latch },
            SpecParsed::Proxied { member, content, latch: sl },
        ) => member_id as int == member && message_content@ == content && latch == sl,
        (ParsedMessage::UnproxiedMessage, SpecParsed::Unproxied) => true,
        (ParsedMessage::LatchClear(m), SpecParsed::LatchClear(sm)) => m as int == sm,
        _ => false,
    }
}

/// Index of the first member whose resolved user id is the given one.
pub open spec fn spec_member_for_user(members: Seq<Member>, user_id: UserId) -> Option<int>
    decreases members.len(),
{
    if members.len() == 0 {
        None
    } else if members[0].user_id == Some(user_id) {
        Some(0int)
    } else {
        match spec_member_for_user(members.drop_first(), user_id) {
            Some(i) => Some(i + 1),
            None => None,
        }
    }
}

pub proof fn lemma_member_for_user(members: Seq<Member>, user_id: UserId)
    ensures
        match spec_member_for_user(members, user_id) {
            Some(i) => 0 <= i < members.len() && members[i].user_id == Some(user_id) && forall|
                k: int,
            | 0 <= k < i ==> members[k].user_id != Some(user_id),
            None => forall|k: int| 0 <= k < members.len() ==> members[k].user_id != Some(user_id),
        },
    decreases members.len(),
{
    if members.len() > 0 && members[0].user_id != Some(user_id) {
        let tail = members.drop_first();
        lemma_member_for_user(tail, user_id);
        match spec_member_for_user(tail, user_id) {
            Some(i) => {
                assert(tail[i] == members[i + 1]);
                assert forall|k: int| 0 <= k < i + 1 implies members[k].user_id != Some(user_id) by {
                    if k > 0 {
                        assert(tail[k - 1] == members[k]);
                    }
                }
            },
            None => {
                assert forall|k: int| 0 <= k < members.len() implies members[k].user_id != Some(
                    user_id,
                ) by {
                    if k > 0 {
                        assert(tail[k - 1] == members[k]);
                    }
                }
            },
        }
    }
}

/// The captured `content` group, when the member's pattern matches the
/// whole text.
pub open spec fn spec_proxy_prefix_content(m: Member, text: Seq<char>) -> Option<Seq<char>> {
    match member_pattern_captures(m.message_pattern@, text) {
        Some(fc) => if fc.0.len() == text.len() {
            Some(fc.1)
        } else {
            None
        },
        None => None,
    }
}

impl Member {
    /// The `content` the member's pattern captures from the message, when
    /// the pattern matches. A match that does not cover the whole content
    /// never counts: on success the overall match is the entire content.
    pub fn matches_proxy_prefix(&self, message: &FullMessage) -> (r: Option<String>)
        ensures
            (match r {
                Some(c) => spec_proxy_prefix_content(*self, message.content@) == Some(c@),
                None => spec_proxy_prefix_content(*self, message.content@) is None,
            }),
            r is Some ==> (member_pattern_captures(self.message_pattern@, message.content@)
                matches Some(fc) && fc.0 == message.content@),
    {
        match capture_member_pattern(self.message_pattern.as_str(), message.content.as_str()) {
            Some(fc) => {
                let (full, content) = fc;
                let full_len = full.as_str().unicode_len();
                if full_len == message.content.as_str().unicode_len() {
                    proof {
                        let t = message.content@;
                        let i = choose|i: int|
                            0 <= i && i + full@.len() <= t.len() && full@ == #[trigger] t.subrange(
                                i,
                                i + full@.len(),
                            );
                        assert(i == 0);
                        assert(t.subrange(0, t.len() as int) =~= t);
                    }
                    Some(content)
                } else {
                    None
                }
            },
            None => None,
        }
    }
}

/// Index of the first member (in configuration order) whose pattern
/// matches the whole text.
pub open spec fn spec_first_prefix_idx(members: Seq<Member>, text: Seq<char>) -> Option<int>
    decreases members.len(),
{
    if members.len() == 0 {
        None
    } else if spec_proxy_prefix_content(members[0], text) is Some {
        Some(0int)
    } else {
        match spec_first_prefix_idx(members.drop_first(), text) {
            Some(i) => Some(i + 1),
            None => None,
        }
    }
}

pub proof fn lemma_first_prefix_idx(members: Seq<Member>, text: Seq<char>)
    ensures
        match spec_first_prefix_idx(members, text) {
            Some(i) => 0 <= i < members.len() && spec_proxy_prefix_content(members[i], text)
                is Some && forall|k: int| 0 <= k < i ==> spec_proxy_prefix_content(
                #[trigger] members[k],
                text,
            ) is None,
            None => forall|k: int| 0 <= k < members.len() ==> spec_proxy_prefix_content(
                #[trigger] members[k],
                text,
            ) is None,
        },
    decreases members.len(),
{
    if members.len() > 0 && spec_proxy_prefix_content(members[0], text) is None {
        let tail = members.drop_first();
        lemma_first_prefix_idx(tail, text);
        match spec_first_prefix_idx(tail, text) {
            Some(i) => {
                assert(tail[i] == members[i + 1]);
                assert forall|k: int| 0 <= k < i + 1 implies spec_proxy_prefix_content(
                    #[trigger] members[k],
                    text,
                ) is None by {
                    if k > 0 {
                        assert(tail[k - 1] == members[k]);
                    }
                }
            },
            None => {
                assert forall|k: int| 0 <= k < members.len() implies spec_proxy_prefix_content(
                    #[trigger] members[k],
                    text,
                ) is None by {
                    if k > 0 {
                        assert(tail[k - 1] == members[k]);
                    }
                }
            },
        }
    }
}

/// The member a mention token refers to, when it parses and resolves.
pub open spec fn spec_match_member(tok: Seq<char>, members: Seq<Member>) -> Option<int> {
    match user_mention_id(tok) {
        Some(uid) => spec_member_for_user(members, uid),
        None => None,
    }
}

/// The secondary message, dereferenced into the mathematical domain.
pub open spec fn spec_deref(m: Option<&FullMessage>) -> Option<FullMessage> {
    match m {
        Some(x) => Some(*x),
        None => None,
    }
}

/// The member a latch points at, or member zero without one.
pub open spec fn spec_latch_member(latch: Option<(MemberId, Timestamp)>) -> int {
    match latch {
        Some((m, _)) => m as int,
        None => 0,
    }
}

/// Classification of a message whose first matching member pattern is the
/// one at index `i`: a lone `*` asks to reproxy the secondary message, a
/// non-empty capture is proxied, an empty capture only moves the latch.
pub open spec fn spec_step_prefix(
    members: Seq<Member>,
    i: int,
    text: Seq<char>,
    secondary: Option<FullMessage>,
) -> SpecParsed {
    let c = spec_proxy_prefix_content(members[i], text).unwrap();
    let t = spec_trim(c);
    if t == seq!['*'] {
        match secondary {
            Some(s) => SpecParsed::Command(SpecCommand::Reproxy(i, s.id)),
            None => SpecParsed::Command(SpecCommand::Invalid),
        }
    } else if t.len() > 0 {
        SpecParsed::Proxied { member: i, content: t, latch: true }
    } else {
        SpecParsed::SetProxyAndDelete(i)
    }
}

/// One sed flag applied to the set gathered so far; an unknown flag
/// invalidates the command.
pub open spec fn spec_apply_sed_flag(f: SedFlags, c: char) -> Option<SedFlags> {
    if c == 'i' {
        Some(SedFlags { case_insensitive: true, ..f })
    } else if c == 'm' {
        Some(SedFlags { multi_line: true, ..f })
    } else if c == 'g' {
        Some(SedFlags { global: true, ..f })
    } else if c == 'x' {
        Some(SedFlags { ignore_whitespace: true, ..f })
    } else if c == 'R' {
        Some(SedFlags { crlf: true, ..f })
    } else if c == 's' {
        Some(SedFlags { dot_matches_new_line: true, ..f })
    } else if c == 'U' {
        Some(SedFlags { swap_greed: true, ..f })
    } else {
        None
    }
}

/// The flag set a sed flag string denotes, if every flag is known.
pub open spec fn spec_sed_flags(s: Seq<char>) -> Option<SedFlags>
    decreases s.len(),
{
    if s.len() == 0 {
        Some(SedFlags::spec_none())
    } else {
        match spec_sed_flags(s.drop_last()) {
            None => None,
            Some(f) => spec_apply_sed_flag(f, s.last()),
        }
    }
}

/// What the substitution of a sed command yields on the secondary content.
pub open spec fn spec_sed_result(
    pattern: Seq<char>,
    replacement: Seq<char>,
    text: Seq<char>,
    f: SedFlags,
) -> Option<Seq<char>> {
    if f.global {
        sed_replace_all(
            pattern,
            replacement,
            text,
            f.case_insensitive,
            f.multi_line,
            f.ignore_whitespace,
            f.crlf,
            f.dot_matches_new_line,
            f.swap_greed,
        )
    } else {
        sed_replace_first(
            pattern,
            replacement,
            text,
            f.case_insensitive,
            f.multi_line,
            f.ignore_whitespace,
            f.crlf,
            f.dot_matches_new_line,
            f.swap_greed,
        )
    }
}

/// An `!edit <rest>` command: the rest becomes the new content of the
/// secondary message, attributed to the member whose bot authored it.
pub open spec fn spec_edit_command(
    rest: Seq<char>,
    j: int,
    secondary: Option<FullMessage>,
    config: System,
) -> SpecCommand {
    match secondary {
        None => SpecCommand::Invalid,
        Some(s) => match spec_member_for_user(config.members@, s.author_id) {
            None => SpecCommand::Invalid,
            Some(a) => if j < rest.len() {
                SpecCommand::Edit(a, s.id, rest.subrange(j + 1, rest.len() as int))
            } else {
                SpecCommand::Invalid
            },
        },
    }
}

/// A `!nick <mention> <rest>` command.
pub open spec fn spec_nick_command(rest: Seq<char>, j: int, config: System) -> SpecCommand {
    let k0 = skip_spaces(rest, j);
    if k0 >= rest.len() {
        SpecCommand::Unknown
    } else {
        let k1 = token_end(rest, k0);
        match spec_match_member(rest.subrange(k0, k1), config.members@) {
            None => SpecCommand::Unknown,
            Some(m) => if k1 < rest.len() {
                SpecCommand::Nick(m, rest.subrange(k1 + 1, rest.len() as int))
            } else {
                SpecCommand::Invalid
            },
        }
    }
}

/// A `!reproxy <mention>` command aimed at the secondary message.
pub open spec fn spec_reproxy_command(
    rest: Seq<char>,
    j: int,
    secondary: Option<FullMessage>,
    config: System,
) -> SpecCommand {
    let k0 = skip_spaces(rest, j);
    if k0 >= rest.len() {
        SpecCommand::Unknown
    } else {
        let k1 = token_end(rest, k0);
        match spec_match_member(rest.subrange(k0, k1), config.members@) {
            None => SpecCommand::Unknown,
            Some(m) => match secondary {
                Some(s) => SpecCommand::Reproxy(m, s.id),
                None => SpecCommand::Invalid,
            },
        }
    }
}

/// A sed-style `!s<sep><pattern><sep><replacement>[<sep><flags>]` command,
/// split on the character right after `!s`.
pub open spec fn spec_sed_command(
    c: Seq<char>,
    secondary: Option<FullMessage>,
    config: System,
) -> SpecCommand {
    if c.len() < 3 {
        SpecCommand::Invalid
    } else {
        let parts = spec_split(c, c[2]);
        if parts.len() != 3 && parts.len() != 4 {
            SpecCommand::Invalid
        } else {
            let flags_s = if parts.len() == 4 {
                parts[3]
            } else {
                Seq::<char>::empty()
            };
            match spec_sed_flags(flags_s) {
                None => SpecCommand::Invalid,
                Some(f) => match secondary {
                    None => SpecCommand::Invalid,
                    Some(s) => match spec_sed_result(parts[1], parts[2], s.content@, f) {
                        None => SpecCommand::Invalid,
                        Some(nc) => match spec_member_for_user(config.members@, s.author_id) {
                            None => SpecCommand::Invalid,
                            Some(a) => SpecCommand::Edit(a, s.id, nc),
                        },
                    },
                },
            }
        }
    }
}

/// The command a `!`-message denotes. The first word picks the form;
/// a word starting with `s` that is no known command is tried as a
/// substitution, anything else is unknown.
pub open spec fn spec_parse_command(
    message: FullMessage,
    secondary: Option<FullMessage>,
    config: System,
) -> SpecCommand {
    let c = message.content@;
    let rest = c.subrange(1, c.len() as int);
    let i0 = skip_spaces(rest, 0);
    if i0 >= rest.len() {
        SpecCommand::Unknown
    } else {
        let j = token_end(rest, i0);
        let word = rest.subrange(i0, j);
        if word == "edit"@ {
            spec_edit_command(rest, j, secondary, config)
        } else if word == "nick"@ {
            spec_nick_command(rest, j, config)
        } else if word == "reproxy"@ {
            spec_reproxy_command(rest, j, secondary, config)
        } else if rest[0] == 's' {
            spec_sed_command(c, secondary, config)
        } else {
            SpecCommand::Unknown
        }
    }
}

/// The classification of a message: first the escapes, then commands,
/// then member patterns, then the latch, else unproxied.
pub open spec fn spec_parse(
    message: FullMessage,
    secondary: Option<FullMessage>,
    config: System,
    latch: Option<(MemberId, Timestamp)>,
) -> SpecParsed {
    let c = message.content@;
    if c == seq!['\\', '\\'] {
        SpecParsed::LatchClear(spec_latch_member(latch))
    } else if c.len() > 0 && c[0] == '\\' {
        SpecParsed::Unproxied
    } else if c.len() > 0 && c[0] == '!' {
        SpecParsed::Command(spec_parse_command(message, secondary, config))
    } else {
        match spec_first_prefix_idx(config.members@, c) {
            Some(i) => spec_step_prefix(config.members@, i, c, secondary),
            None => match latch {
                Some((m, _)) => SpecParsed::Proxied { member: m as int, content: c, latch: true },
                None => SpecParsed::Unproxied,
            },
        }
    }
}

/// The message parser; a pure classifier.
pub struct MessageParser {}

impl MessageParser {
    /// Classifies one reference-user message. Every input yields exactly
    /// one classification: the result always denotes `spec_parse` of the
    /// inputs, which is total.
    pub fn parse(
        message: &FullMessage,
        secondary_message: Option<&FullMessage>,
        system_config: &System,
        latch_state: Option<(MemberId, Timestamp)>,
    ) -> (r: ParsedMessage)
        ensures
            parsed_denotes(
                r,
                spec_parse(*message, spec_deref(secondary_message), *system_config, latch_state),
            ),
    {
        let content = message.content.as_str();
        let n = content.unicode_len();
        proof {
            assert(seq!['\\', '\\'].len() == 2);
        }
        if n == 2 && content.get_char(0) == '\\' && content.get_char(1) == '\\' {
            proof {
                assert(message.content@ =~= seq!['\\', '\\']);
            }
            let m: MemberId = match latch_state {
                Some((member_id, _)) => member_id,
                None => 0,
            };
            return ParsedMessage::LatchClear(m);
        }
        if n > 0 && content.get_char(0) == '\\' {
            return ParsedMessage::UnproxiedMessage;
        }
        if n > 0 && content.get_char(0) == '!' {
            return ParsedMessage::Command(
                Self::parse_command(message, secondary_message, system_config, latch_state),
            );
        }
        if let Some(p) = Self::check_correction(message, secondary_message) {
            return p;
        }
        if let Some(p) = Self::check_member_patterns(message, secondary_message, system_config) {
            return p;
        }
        if let Some(p) = Self::check_autoproxy(message, latch_state) {
            return p;
        }
        ParsedMessage::UnproxiedMessage
    }

    /// Parses the command a `!`-message carries.
    fn parse_command(
        message: &FullMessage,
        secondary_message: Option<&FullMessage>,
        system_config: &System,
        _latch_state: Option<(MemberId, Timestamp)>,
    ) -> (r: Command)
        requires
            message.content@.len() > 0,
            message.content@[0] == '!',
        ensures
            command_denotes(
                r,
                spec_parse_command(*message, spec_deref(secondary_message), *system_config),
            ),
    {
        let content = message.content.as_str();
        let n = content.unicode_len();
        let rest = content.substring_char(1, n);
        let rn = rest.unicode_len();
        let i0 = find_non_space(rest, 0);
        if i0 >= rn {
            return Command::UnknownCommand;
        }
        let j = find_space(rest, i0);
        proof {
            lemma_token_end(rest@, i0 as int);
        }
        let word = rest.substring_char(i0, j);
        if str_eq(word, "edit") {
            match secondary_message {
                None => Command::InvalidCommand,
                Some(s) => match Self::get_member_id_from_user_id(s.author_id, system_config) {
                    None => Command::InvalidCommand,
                    Some(a) => if j < rn {
                        Command::Edit(a, s.id, rest.substring_char(j + 1, rn).to_owned())
                    } else {
                        Command::InvalidCommand
                    },
                },
            }
        } else if str_eq(word, "nick") {
            let k0 = find_non_space(rest, j);
            proof {
                lemma_skip_spaces(rest@, j as int);
            }
            if k0 >= rn {
                return Command::UnknownCommand;
            }
            let k1 = find_space(rest, k0);
            proof {
                lemma_token_end(rest@, k0 as int);
            }
            let tok = rest.substring_char(k0, k1);
            match Self::match_member(Some(tok), system_config) {
                None => Command::UnknownCommand,
                Some(m) => if k1 < rn {
                    Command::Nick(m, rest.substring_char(k1 + 1, rn).to_owned())
                } else {
                    Command::InvalidCommand
                },
            }
        } else if str_eq(word, "reproxy") {
            let k0 = find_non_space(rest, j);
            proof {
                lemma_skip_spaces(rest@, j as int);
            }
            if k0 >= rn {
                return Command::UnknownCommand;
            }
            let k1 = find_space(rest, k0);
            proof {
                lemma_token_end(rest@, k0 as int);
            }
            let tok = rest.substring_char(k0, k1);
            match Self::match_member(Some(tok), system_config) {
                None => Command::UnknownCommand,
                Some(m) => match secondary_message {
                    Some(s) => Command::Reproxy(m, s.id),
                    None => Command::InvalidCommand,
                },
            }
        } else if rest.get_char(0) == 's' {
            Self::parse_sed_command(message, secondary_message, system_config)
        } else {
            Command::UnknownCommand
        }
    }

    /// Parses a sed-style substitution command.
    fn parse_sed_command(
        message: &FullMessage,
        secondary_message: Option<&FullMessage>,
        system_config: &System,
    ) -> (r: Command)
        requires
            message.content@.len() > 0,
            message.content@[0] == '!',
        ensures
            command_denotes(
                r,
                spec_sed_command(message.content@, spec_deref(secondary_message), *system_config),
            ),
    {
        let content = message.content.as_str();
        let n = content.unicode_len();
        if n < 3 {
            return Command::InvalidCommand;
        }
        let sep = content.get_char(2);
        let parts = split_by(content, sep);
        proof {
            assert(parts.deep_view().len() == parts@.len());
        }
        if !(parts.len() == 3 || parts.len() == 4) {
            return Command::InvalidCommand;
        }
        let flags = if parts.len() == 4 {
            proof {
                assert(parts.deep_view()[3] == parts@[3]@);
            }
            Self::parse_sed_flags(parts[3].as_str())
        } else {
            proof {
                assert(spec_sed_flags(Seq::<char>::empty()) == Some(SedFlags::spec_none()));
            }
            Some(SedFlags::none())
        };
        match flags {
            None => Command::InvalidCommand,
            Some(f) => match secondary_message {
                None => Command::InvalidCommand,
                Some(s) => {
                    proof {
                        assert(parts.deep_view()[1] == parts@[1]@);
                        assert(parts.deep_view()[2] == parts@[2]@);
                    }
                    let replaced = if f.global {
                        regex_replace_all(
                            parts[1].as_str(),
                            parts[2].as_str(),
                            s.content.as_str(),
                            f,
                        )
                    } else {
                        regex_replace_first(
                            parts[1].as_str(),
                            parts[2].as_str(),
                            s.content.as_str(),
                            f,
                        )
                    };
                    match replaced {
                        None => Command::InvalidCommand,
                        Some(nc) => match Self::get_member_id_from_user_id(
                            s.author_id,
                            system_config,
                        ) {
                            None => Command::InvalidCommand,
                            Some(a) => Command::Edit(a, s.id, nc),
                        },
                    }
                },
            },
        }
    }

    /// Parses a sed flag string into the flag set it denotes.
    fn parse_sed_flags(s: &str) -> (r: Option<SedFlags>)
        ensures
            r == spec_sed_flags(s@),
    {
        let n = s.unicode_len();
        let mut f = SedFlags::none();
        let mut i: usize = 0;
        proof {
            assert(s@.subrange(0, 0) =~= Seq::<char>::empty());
        }
        while i < n
            invariant
                0 <= i <= n,
                n == s@.len(),
                Some(f) == spec_sed_flags(s@.subrange(0, i as int)),
            decreases n - i,
        {
            let c = s.get_char(i);
            let next = Self::apply_sed_flag(f, c);
            proof {
                let p = s@.subrange(0, i as int + 1);
                assert(p.drop_last() =~= s@.subrange(0, i as int));
                assert(p.last() == s@[i as int]);
            }
            match next {
                Some(nf) => {
                    f = nf;
                },
                None => {
                    proof {
                        lemma_sed_flags_none_extends(s@, i as int + 1);
                    }
                    return None;
                },
            }
            i = i + 1;
        }
        proof {
            assert(s@.subrange(0, n as int) =~= s@);
        }
        Some(f)
    }

    /// Applies one flag character.
    fn apply_sed_flag(f: SedFlags, c: char) -> (r: Option<SedFlags>)
        ensures
            r == spec_apply_sed_flag(f, c),
    {
        let mut nf = f;
        if c == 'i' {
            nf.case_insensitive = true;
            Some(nf)
        } else if c == 'm' {
            nf.multi_line = true;
            Some(nf)
        } else if c == 'g' {
            nf.global = true;
            Some(nf)
        } else if c == 'x' {
            nf.ignore_whitespace = true;
            Some(nf)
        } else if c == 'R' {
            nf.crlf = true;
            Some(nf)
        } else if c == 's' {
            nf.dot_matches_new_line = true;
            Some(nf)
        } else if c == 'U' {
            nf.swap_greed = true;
            Some(nf)
        } else {
            None
        }
    }

    /// Correction-message hook; recognised but not yet acted on.
    fn check_correction(_message: &FullMessage, _secondary_message: Option<&FullMessage>) -> (r:
        Option<ParsedMessage>)
        ensures
            r is None,
    {
        None
    }

    /// First member whose pattern matches, classified by its capture.
    fn check_member_patterns(
        message: &FullMessage,
        secondary_message: Option<&FullMessage>,
        system_config: &System,
    ) -> (r: Option<ParsedMessage>)
        ensures
            (match spec_first_prefix_idx(system_config.members@, message.content@) {
                Some(i) => r matches Some(p) && parsed_denotes(
                    p,
                    spec_step_prefix(
                        system_config.members@,
                        i,
                        message.content@,
                        spec_deref(secondary_message),
                    ),
                ),
                None => r is None,
            }),
    {
        let nm = system_config.members.len();
        let mut i: usize = 0;
        while i < nm
            invariant
                0 <= i <= nm,
                nm == system_config.members@.len(),
                forall|k: int| 0 <= k < i ==> spec_proxy_prefix_content(
                    #[trigger] system_config.members@[k],
                    message.content@,
                ) is None,
            decreases nm - i,
        {
            let mp = system_config.members[i].matches_proxy_prefix(message);
            if let Some(matched_content) = mp {
                proof {
                    lemma_first_prefix_idx(system_config.members@, message.content@);
                    match spec_first_prefix_idx(system_config.members@, message.content@) {
                        Some(si) => {
                            if si < i {
                                assert(spec_proxy_prefix_content(
                                    system_config.members@[si],
                                    message.content@,
                                ) is None);
                            }
                            if si > i {
                                assert(spec_proxy_prefix_content(
                                    system_config.members@[i as int],
                                    message.content@,
                                ) is None);
                            }
                        },
                        None => {
                            assert(spec_proxy_prefix_content(
                                system_config.members@[i as int],
                                message.content@,
                            ) is None);
                        },
                    }
                }
                let trimmed = trim(matched_content.as_str());
                let tlen = trimmed.unicode_len();
                if tlen == 1 && trimmed.get_char(0) == '*' {
                    proof {
                        assert(trimmed@ =~= seq!['*']);
                    }
                    return match secondary_message {
                        Some(s) => Some(
                            ParsedMessage::Command(Command::Reproxy(i, s.id)),
                        ),
                        None => Some(ParsedMessage::Command(Command::InvalidCommand)),
                    };
                }
                proof {
                    assert(seq!['*'].len() == 1);
                    if spec_trim(matched_content@) == seq!['*'] {
                        assert(trimmed@.len() == 1 && trimmed@[0] == '*');
                    }
                }
                if tlen > 0 {
                    return Some(
                        ParsedMessage::ProxiedMessage {
                            member_id: i,
                            message_content: trimmed.to_owned(),
                            latch: true,
                        },
                    );
                }
                return Some(ParsedMessage::SetProxyAndDelete(i));
            }
            i = i + 1;
        }
        proof {
            lemma_first_prefix_idx(system_config.members@, message.content@);
            if let Some(si) = spec_first_prefix_idx(system_config.members@, message.content@) {
                assert(spec_proxy_prefix_content(
                    system_config.members@[si],
                    message.content@,
                ) is None);
            }
        }
        None
    }

    /// Proxies to the latched member, when a latch is active.
    fn check_autoproxy(message: &FullMessage, latch_state: Option<(MemberId, Timestamp)>) -> (r:
        Option<ParsedMessage>)
        ensures
            (match latch_state {
                Some((m, _)) => r matches Some(p) && parsed_denotes(
                    p,
                    SpecParsed::Proxied {
                        member: m as int,
                        content: message.content@,
                        latch: true,
                    },
                ),
                None => r is None,
            }),
    {
        match latch_state {
            Some((member_id, _)) => Some(
                ParsedMessage::ProxiedMessage {
                    member_id,
                    message_content: message.content.clone(),
                    latch: true,
                },
            ),
            None => None,
        }
    }

    /// The member the mention token resolves to, if any.
    fn match_member(maybe_mention: Option<&str>, system_config: &System) -> (r: Option<MemberId>)
        ensures
            (match maybe_mention {
                Some(t) => (match r {
                    Some(m) => spec_match_member(t@, system_config.members@) == Some(m as int),
                    None => spec_match_member(t@, system_config.members@) is None,
                }),
                None => r is None,
            }),
    {
        match maybe_mention {
            Some(tok) => match parse_user_mention(tok) {
                Some(uid) => Self::get_member_id_from_user_id(uid, system_config),
                None => None,
            },
            None => None,
        }
    }

    /// The member whose resolved bot account is the given user, if any.
    pub fn get_member_id_from_user_id(user_id: UserId, system_config: &System) -> (r: Option<
        MemberId,
    >)
        ensures
            (match r {
                Some(m) => spec_member_for_user(system_config.members@, user_id) == Some(m as int),
                None => spec_member_for_user(system_config.members@, user_id) is None,
            }),
    {
        let nm = system_config.members.len();
        let mut i: usize = 0;
        while i < nm
            invariant
                0 <= i <= nm,
                nm == system_config.members@.len(),
                forall|k: int| 0 <= k < i ==> (#[trigger] system_config.members@[k]).user_id
                    != Some(user_id),
            decreases nm - i,
        {
            let matched = match system_config.members[i].user_id {
                Some(u) => u == user_id,
                None => false,
            };
            if matched {
                proof {
                    lemma_member_for_user(system_config.members@, user_id);
                    match spec_member_for_user(system_config.members@, user_id) {
                        Some(si) => {
                            if si < i {
                                assert(system_config.members@[si].user_id != Some(user_id));
                            }
                            if si > i {
                                assert(system_config.members@[i as int].user_id != Some(user_id));
                            }
                        },
                        None => {
                            assert(system_config.members@[i as int].user_id != Some(user_id));
                        },
                    }
                }
                return Some(i);
            }
            i = i + 1;
        }
        proof {
            lemma_member_for_user(system_config.members@, user_id);
            if let Some(si) = spec_member_for_user(system_config.members@, user_id) {
                assert(system_config.members@[si].user_id != Some(user_id));
            }
        }
        None
    }
}

/// An unknown sed flag invalidates every extension of the string.
proof fn lemma_sed_flags_none_extends(s: Seq<char>, i: int)
    requires
        0 <= i <= s.len(),
        spec_sed_flags(s.subrange(0, i)) is None,
    ensures
        spec_sed_flags(s) is None,
    decreases s.len() - i,
{
    if i < s.len() {
        let p = s.subrange(0, i + 1);
        assert(p.drop_last() =~= s.subrange(0, i));
        lemma_sed_flags_none_extends(s, i + 1);
    } else {
        assert(s.subrange(0, i) =~= s);
    }
}

} // verus!
