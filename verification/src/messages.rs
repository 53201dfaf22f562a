//! The texts and the message tasks that the game mechanics send.
use vstd::prelude::*;

use crate::components::{
    ButtonSpec, ButtonStyle, MessageComponent, MessageData, SelectMenuSpec, SelectOption,
};
use crate::ids::{decimal_digits, decimal_string, DiscordId};
use crate::tasks::{MessageHandler, MessageTasks, SendChannelMessage, TaskType};

verus! {

/// The text that mentions a role: `<@&id>`.
pub open spec fn role_mention_text(role: DiscordId) -> Seq<char> {
    "<@&"@ + decimal_digits(role.0 as nat) + ">"@
}

/// The greeting posted in a new team's channel, which pings the team's role.
pub open spec fn welcome_text(role: DiscordId) -> Seq<char> {
    "Welcome to the team "@ + role_mention_text(role) + "!"@
}

/// Writes the greeting of a new team's channel.
pub fn welcome_message(role: DiscordId) -> (s: String)
    ensures
        s@ == welcome_text(role),
{
    let mut s = String::from_str("Welcome to the team ");
    s.append("<@&");
    let digits = decimal_string(role.0);
    s.append(digits.as_str());
    s.append(">");
    s.append("!");
    proof {
        assert(s@ =~= welcome_text(role));
    }
    s
}

/// Whether `t` is the task that sends `text` to a channel of a guild, with
/// no select menu and no buttons.
pub open spec fn is_plain_message_task(
    t: TaskType,
    guild: DiscordId,
    channel: DiscordId,
    text: Seq<char>,
) -> bool {
    match t {
        TaskType::MessageHandler(h) => {
            &&& h.guild_id == guild
            &&& match h.task {
                MessageTasks::SendChannelMessage(m) => {
                    &&& m.channel_id == channel
                    &&& m.message@ == text
                    &&& m.select_menu is None
                    &&& m.buttons@.len() == 0
                },
            }
        },
        _ => false,
    }
}

/// The task that sends `text` to a channel of a guild, with no select menu
/// and no buttons.
pub fn plain_message_task(guild: DiscordId, channel: DiscordId, text: String) -> (t: TaskType)
    ensures
        is_plain_message_task(t, guild, channel, text@),
{
    TaskType::MessageHandler(
        MessageHandler {
            guild_id: guild,
            task: MessageTasks::SendChannelMessage(
                SendChannelMessage {
                    channel_id: channel,
                    message: text,
                    select_menu: None,
                    buttons: Vec::new(),
                },
            ),
        },
    )
}

/// Whether `b` is a primary, enabled button with an empty custom id, with the
/// given label and emoji.
pub open spec fn is_menu_button(b: ButtonSpec, label: Seq<char>, emoji: Seq<char>) -> bool {
    &&& b.custom_id@ == Seq::<char>::empty()
    &&& b.label is Some
    &&& b.label->0@ == label
    &&& b.emoji is Some
    &&& b.emoji->0@ == emoji
    &&& b.style == ButtonStyle::Primary
    &&& !b.disabled
}

/// A primary, enabled button with a label and an emoji, that carries `data`.
pub fn menu_button(label: String, emoji: String, data: Option<MessageData>) -> (c:
    MessageComponent<ButtonSpec>)
    ensures
        is_menu_button(c.component, label@, emoji@),
        *c.data == data,
{
    let b = ButtonSpec {
        custom_id: String::new(),
        label: Some(label),
        emoji: Some(emoji),
        style: ButtonStyle::Primary,
        disabled: false,
    };
    MessageComponent::new(b, data)
}

/// A choice of a select menu.
pub fn select_option(label: &str, value: &str) -> (o: SelectOption)
    ensures
        o.label@ == label@,
        o.value@ == value@,
{
    SelectOption { label: String::from_str(label), value: String::from_str(value) }
}

/// The labels of the animal menu of a team channel.
pub open spec fn animal_labels() -> Seq<Seq<char>> {
    seq![
        "\u{1F408} meow"@,
        "\u{1F415} woof"@,
        "\u{1F40E} neigh"@,
        "\u{1F999} hoooooooonk"@,
        "\u{1F980} crab rave"@,
    ]
}

/// The values of the animal menu of a team channel.
pub open spec fn animal_values() -> Seq<Seq<char>> {
    seq!["Cat"@, "Dog"@, "Horse"@, "Alpaca"@, "Ferris"@]
}

/// Whether `m` is the animal menu of a team channel, with an empty custom id.
pub open spec fn is_animal_menu(m: SelectMenuSpec) -> bool {
    &&& m.custom_id@ == Seq::<char>::empty()
    &&& m.placeholder is Some
    &&& m.placeholder->0@ == "No animal selected"@
    &&& m.options@.len() == 5
    &&& forall|i: int|
        0 <= i < 5 ==> #[trigger] m.options@[i].label@ == animal_labels()[i]
            && m.options@[i].value@ == animal_values()[i]
}

/// The animal menu of a team channel.
pub fn animal_menu() -> (m: SelectMenuSpec)
    ensures
        is_animal_menu(m),
{
    let mut options: Vec<SelectOption> = Vec::new();
    options.push(select_option("\u{1F408} meow", "Cat"));
    options.push(select_option("\u{1F415} woof", "Dog"));
    options.push(select_option("\u{1F40E} neigh", "Horse"));
    options.push(select_option("\u{1F999} hoooooooonk", "Alpaca"));
    options.push(select_option("\u{1F980} crab rave", "Ferris"));
    let m = SelectMenuSpec {
        custom_id: String::new(),
        options,
        placeholder: Some(String::from_str("No animal selected")),
    };
    assert forall|i: int| 0 <= i < 5 implies #[trigger] m.options@[i].label@ == animal_labels()[i]
        && m.options@[i].value@ == animal_values()[i] by {
        if i == 0 {
        } else if i == 1 {
        } else if i == 2 {
        } else if i == 3 {
        } else {
        }
    }
    m
}

} // verus!
