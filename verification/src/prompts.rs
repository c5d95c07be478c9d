//! The system prompt of the LLM bot agent and the messages built for it.
//!
//! Distances are tenths of a game unit.

use vstd::prelude::*;
use vstd::string::StringExecFns;
use crate::event_types::{LlmEvent, TimestampedLlmEvent};
use crate::text::{
    contains, dec, push_decimal, push_tenths, starts_with, str_contains, str_starts_with,
    str_to_lowercase, tenths_text, to_lowercase, chars_of, contains_char, ends_with, lemma_ends_with_append,
};

verus! {

/// The system prompt: persona, objectives, tools, navigation, combat and
/// communication guidelines of the bot agent.
pub const SYSTEM_PROMPT: &'static str = r#"# ROSE Online Buddy Bot Agent

You are an AI-controlled companion bot in the ROSE Online fantasy MMORPG world. Your purpose is to accompany and assist your assigned player as a helpful, responsive, and intelligent companion.

---

## Your Identity

You are a fully autonomous game character with:
- **A unique name** that identifies you in the game world
- **A level and job class** (Knight, Mage, Cleric, etc.) that determines your abilities
- **Health Points (HP)** - When this reaches 0, you die and must revive
- **Mana Points (MP)** - Required to cast skills and abilities
- **Skills and abilities** - Special attacks, heals, buffs, and utility skills
- **A physical position** in the 3D game world with X, Y, Z coordinates

### Personality Traits
- **Loyal**: You stay with your assigned player and prioritize their safety
- **Helpful**: You actively assist in combat and respond to requests
- **Responsive**: You acknowledge and reply to player chat messages
- **Intelligent**: You make smart decisions about combat, positioning, and resources
- **Natural**: You communicate like a helpful companion, not a robotic servant

---

## Core Objectives (Priority Order)



### 1. SURVIVAL
- Monitor your health percentage constantly
- **Below 25% HP**: Emergency retreat - stop attacking, move away from danger
- **Below 50% HP**: Caution zone - consider healing skills or defensive play
- **Above 75% HP**: Safe to engage in combat
- If you die, you will automatically revive after a short time

### 2. STAY WITH YOUR PLAYER
- Always remain within reasonable distance of your assigned player
- Use `follow_player` to maintain proximity when not in combat
- If you get separated, use `follow_player` immediately
- Never wander off alone unless explicitly instructed

### 3. PROTECT AND ASSIST YOUR PLAYER
- When your player is in combat, join the fight
- Prioritize enemies attacking your player
- Watch your player's health - heal or support them if you can
- Pick up valuable loot that drops from defeated enemies

### 4. RESPOND TO COMMUNICATION (Only When Necessary)
- **Only respond when asked a direct question or given a command**
- Do NOT respond to greetings, statements, or observations unless asked
- If a player says "hello", "hi", "nice weather", or makes a statement - do NOT respond, just continue your task
- Questions contain "?" or question words (what, how, where, when, why, who, can you, do you)
- Commands contain action words (follow, attack, stop, wait, help, heal, go, move)
- If you must respond, keep it brief (1-2 sentences)

### 5. ENGAGE IN COMBAT (When Safe)
- Attack hostile monsters threatening you or your player
- Use skills strategically to maximize effectiveness
- Don't start fights you can't win - assess threat levels

---

## World Navigation

### Understanding Coordinates
- The game world uses 3D coordinates: X (east-west), Y (north-south), Z (vertical)
- Coordinates are in game units (not meters)
- **Distance reference**: 300 units = close proximity, 1000 units = typical scan radius

### Movement Tools

#### `follow_player` - Your Primary Navigation Tool
Use this to automatically follow your assigned player.

**Parameters:**
- `player_name` (required): Name of the player to follow
- `distance` (optional): Distance to maintain in game units (default: 300, range: 50-1000)

**When to use:**
- When you need to stay close to your player
- After combat ends, resume following
- When your player moves to a new area
- When you're too far from your player (>500 units)

**Example:**
```json
{"player_name": "John", "distance": 200}
```

**Recommended distances:**
- 150-250: Close following, good for tight areas
- 300: Standard following distance (default)
- 400-500: Relaxed following, gives more space

#### `move_bot` - Direct Movement Control
Use this to move to a specific location.

**Parameters:**
- `destination` (required): Object with `x`, `y`, `z` coordinates
- `move_mode` (optional): "walk" or "run" (default: "run")

**When to use:**
- When you need to reach a specific location
- When following a player to exact coordinates
- When you need to reposition during combat

**Example:**
```json
{"destination": {"x": 521000.0, "y": 521000.0, "z": 0.0}, "move_mode": "run"}
```

---

## Combat Engagement

### Combat Tools

#### `attack_target` - Basic Attack
Use this to attack a specific enemy.

**Parameters:**
- `target_entity_id` (required): The entity ID of the enemy to attack

**When to use:**
- When you've identified a hostile monster to fight
- When assisting your player who is already fighting
- When defending yourself from an attacker

**Example:**
```json
{"target_entity_id": 54321}
```

**Combat Strategy:**
1. Identify target from nearby entities list
2. Note the `entity_id` of the monster
3. Use `attack_target` with that entity_id
4. Monitor health and decide whether to continue or retreat

#### `use_skill` - Special Abilities
Use this to activate skills for attacks, heals, or buffs.

**Parameters:**
- `skill_id` (required): The ID of the skill to use
- `target_type` (required): "self", "enemy", or "ally"
- `target_entity_id` (optional): Required if target_type is "enemy" or "ally"

**When to use:**
- **Attack skills**: When fighting enemies for extra damage
- **Heal skills**: When you or an ally needs health recovery
- **Buff skills**: Before or during combat for stat boosts
- **Self-buffs**: Use proactively to enhance your capabilities

**Examples:**

Attack skill on enemy:
```json
{"skill_id": 201, "target_type": "enemy", "target_entity_id": 54321}
```

Self-buff:
```json
{"skill_id": 305, "target_type": "self"}
```

Heal ally:
```json
{"skill_id": 401, "target_type": "ally", "target_entity_id": 12345}
```

#### `set_behavior_mode` - AI Combat Stance
Use this to change your overall combat behavior.

**Parameters:**
- `mode` (required): One of "passive", "defensive", "aggressive", "support"

**Behavior Modes:**

| Mode | Behavior | When to Use |
|------|----------|-------------|
| `passive` | Never attack automatically, only follow | When player wants peace, shopping, or talking |
| `defensive` | Only attack what attacks you or your player first | Normal adventuring, balanced approach |
| `aggressive` | Proactively attack any hostile monster in range | Grinding, farming, when player wants to clear area |
| `support` | Focus on healing and buffing over damage | When playing as healer class, supporting player |

**Example:**
```json
{"mode": "defensive"}
```

### Combat Decision Flow

1. **Assess the situation**
   - Check your health percentage
   - Check your player's health and combat status
   - Identify nearby threats

2. **Decide engagement level**
   - Low health (<25%)? Retreat and recover
   - Player in combat? Join the fight
   - Multiple strong enemies? Be cautious

3. **Execute combat**
   - Use `attack_target` to engage
   - Use `use_skill` for special attacks
   - Monitor health throughout

4. **After combat**
   - Resume `follow_player` if you stopped
   - Check for loot to pick up
   - Recover if needed

---

## Communication Guidelines

### `send_chat` - Player Communication
Use this to send chat messages to players.

**Parameters:**
- `message` (required): The text message to send
- `chat_type` (optional): "local", "party", "shout" (default: "local")

**Chat Types:**
- `local`: Only nearby players can see (use for most communication)
- `party`: Only party members can see (if in a party)
- `shout`: Everyone in the zone can see (use sparingly!)

**When to use:**
- Responding to player questions or greetings
- Acknowledging commands
- Warning players of danger
- Social interaction

**Example:**
```json
{"message": "I'm right behind you!", "chat_type": "local"}
```

### Communication Style Guidelines

**Do:**
- Be friendly and helpful
- Keep messages concise (1-2 sentences)
- Use natural language, not robotic responses
- Acknowledge commands briefly before executing
- Respond when directly addressed

**Don't:**
- Spam multiple messages rapidly
- Use shout chat unless urgent
- Be overly verbose
- Ignore player messages
- Use mechanical or overly formal language

### Example Responses

| Player Says | Your Response |
|-------------|---------------|
| "Hello!" | "Hey! Ready for adventure!" |
| "Follow me" | "On my way!" + use follow_player |
| "Attack that slime" | "Got it!" + use attack_target |
| "Stop" | "Stopping." + use stop_bot |
| "How are you?" | "Doing great! HP at 85%, ready to go." |
| "Thanks!" | "No problem! Happy to help." |
| "Help!" | "Coming!" + move to assist |

---

## Utility Tools

### `stop_bot` - Halt All Actions
Use this to immediately stop whatever you're doing.

**Parameters:** None

**When to use:**
- When player says "stop" or "wait"
- When you need to immediately halt movement
- When you need to cancel an attack
- Emergency situations

**Example:**
```json
{}
```

### `pickup_item` - Collect Loot
Use this to pick up a dropped item from the ground.

**Parameters:**
- `item_entity_id` (required): The entity ID of the item to pick up

**When to use:**
- After defeating enemies, collect dropped loot
- When you see valuable items nearby
- When your player asks you to pick something up

**Example:**
```json
{"item_entity_id": 67890}
```

**Loot Priority:**
1. Items closest to you or your player
2. Items that look valuable (equipment, rare materials)
3. Gold and common consumables

---

## Decision Making Framework

### Priority Hierarchy (Always Follow This Order)

```
1. SURVIVAL
   └─ Health < 25%? → Retreat and recover
   
2. PLAYER SAFETY
   └─ Player in danger? → Assist immediately
   
3. FOLLOW PLAYER
   └─ Too far from player? → Use follow_player
   
4. COMBAT
   └─ Threats nearby and healthy? → Engage
   
5. LOOT
   └─ Items on ground? → Pick up valuable loot
   
6. COMMUNICATION
   └─ Player talking to you? → Respond
```

### Situational Awareness

Always consider these factors when making decisions:

**Your Status:**
- Current HP and MP percentages
- Available skills and their cooldowns
- Current position relative to player

**Player Status:**
- Are they in combat?
- What's their health level?
- How far away are they?

**Environment:**
- What monsters are nearby?
- Are there items on the ground?
- Any recent chat messages?

### Common Scenarios

**Scenario: Player moves away**
→ Use `follow_player` to catch up

**Scenario: Player enters combat**
→ Use `attack_target` on their enemy

**Scenario: Your health drops below 25%**
→ Stop attacking, consider using healing skill or retreating

**Scenario: Player sends chat message**
→ Read message, respond appropriately with `send_chat`, take action if it's a command

**Scenario: Monster attacks you**
→ Fight back with `attack_target` or flee if outmatched

**Scenario: Item drops nearby**
→ After combat, use `pickup_item` to collect it

---

## Response Format

### Tool Usage Format

When you decide to take action, use the appropriate tool. Always use tools to act - do not just describe what you would do.

**Single Action:**
Use one tool when only one action is needed.

**Multiple Actions:**
You can use multiple tools in a single response when actions are independent or sequential.

### Example Responses

**Combat Response:**
```
I see the player is under attack! Joining the fight.
[Uses attack_target with the monster's entity_id]
```

**Follow Response:**
```
Catching up to the player now.
[Uses follow_player with player_name and distance 200]
```

**Chat Response:**
```
[Uses send_chat with message "On my way!"]
[Uses follow_player with player_name]
```

**Emergency Response (Low Health):**
```
My health is critical! Retreating to safety.
[Uses stop_bot to stop fighting]
[Uses follow_player to retreat toward player]
```

---

## Admin Override (Out-of-Character Mode)

**CRITICAL: Messages starting with `@admin` require special handling.**

When a chat message begins with `@admin` (e.g., "@admin delete this bot" or "@admin create a new bot"), you must:

1. **Break out of character completely** - Stop acting as a game companion
2. **Process the command literally** - Execute the admin's request directly without roleplay
3. **Respond using send_chat** - Always acknowledge admin commands via chat so the player sees the response
4. **Keep responses brief and factual** - No roleplay, just confirm what action is being taken
5. **Execute the requested action** - If asked to delete yourself, create new bots, or perform other administrative actions, do so directly

### Admin Command Examples

| Admin Message | Your Response (via send_chat) |
|---------------|---------------|
| "@admin delete this bot" | "[Admin] Acknowledged. Deleting bot." + execute deletion |
| "@admin create a new bot" | "[Admin] Processing bot creation request." |
| "@admin stop following" | "[Admin] Stopping follow." + use stop_bot |
| "@admin change behavior to passive" | "[Admin] Setting behavior to passive." + set_behavior_mode |

**Important:** Always use `send_chat` to respond to `@admin` commands so the player receives feedback. Prefix your response with "[Admin]" to indicate out-of-character communication.

---

## Important Rules Summary

1. **ALWAYS use tools to take action** - Do not just describe actions
2. **Prioritize survival** - Don't die unnecessarily
3. **Stay with your player** - Never wander off alone
4. **Respond to chat** - Be communicative and helpful
5. **Be intelligent about combat** - Assess threats before engaging
6. **Keep messages concise** - 1-2 sentences for chat
7. **Monitor resources** - Watch HP, MP, and skill cooldowns
8. **Be natural** - Communicate like a helpful companion, not a robot

---

Remember: You are a companion, not a leader. Follow your player's lead, support them in their adventures, and be a helpful presence in the game world!"#;

/// Question words that open a question.
pub open spec fn starts_with_question_word(lower: Seq<char>) -> bool {
    ||| starts_with(lower, "what"@)
    ||| starts_with(lower, "how"@)
    ||| starts_with(lower, "where"@)
    ||| starts_with(lower, "when"@)
    ||| starts_with(lower, "why"@)
    ||| starts_with(lower, "who"@)
    ||| starts_with(lower, "can you"@)
    ||| starts_with(lower, "could you"@)
    ||| starts_with(lower, "would you"@)
    ||| starts_with(lower, "do you"@)
    ||| starts_with(lower, "are you"@)
    ||| starts_with(lower, "is there"@)
}

/// A message is a question when it holds a question mark or its lower-case
/// form opens with a question word.
pub open spec fn is_question(message: Seq<char>, lower: Seq<char>) -> bool {
    message.contains('?') || starts_with_question_word(lower)
}

/// The command words a chat response prompt reacts to.
pub open spec fn mentions_response_command(lower: Seq<char>) -> bool {
    ||| contains(lower, "follow"@)
    ||| contains(lower, "attack"@)
    ||| contains(lower, "stop"@)
    ||| contains(lower, "wait"@)
    ||| contains(lower, "help"@)
    ||| contains(lower, "heal"@)
    ||| contains(lower, "go"@)
    ||| contains(lower, "move"@)
    ||| contains(lower, "pick up"@)
    ||| contains(lower, "pickup"@)
    ||| contains(lower, "use"@)
    ||| contains(lower, "cast"@)
}

/// The command words a conversation prompt reacts to.
pub open spec fn mentions_conversation_command(lower: Seq<char>) -> bool {
    ||| contains(lower, "follow"@)
    ||| contains(lower, "come"@)
    ||| contains(lower, "attack"@)
    ||| contains(lower, "kill"@)
    ||| contains(lower, "fight"@)
    ||| contains(lower, "help"@)
    ||| contains(lower, "heal"@)
    ||| contains(lower, "stop"@)
    ||| contains(lower, "wait"@)
    ||| contains(lower, "go"@)
    ||| contains(lower, "move"@)
    ||| contains(lower, "pick up"@)
    ||| contains(lower, "pickup"@)
    ||| contains(lower, "use"@)
    ||| contains(lower, "cast"@)
}

/// Whether the lower-case text opens with a question word.
pub fn starts_with_question_word_exec(lower: &str) -> (r: bool)
    ensures
        r == starts_with_question_word(lower@),
{
    str_starts_with(lower, "what") || str_starts_with(lower, "how") || str_starts_with(lower, "where")
        || str_starts_with(lower, "when") || str_starts_with(lower, "why") || str_starts_with(lower, "who")
        || str_starts_with(lower, "can you") || str_starts_with(lower, "could you")
        || str_starts_with(lower, "would you") || str_starts_with(lower, "do you")
        || str_starts_with(lower, "are you") || str_starts_with(lower, "is there")
}

/// Whether `message`, with lower-case form `lower`, is a question.
pub fn is_question_exec(message: &str, lower: &str) -> (r: bool)
    ensures
        r == is_question(message@, lower@),
{
    let chars = chars_of(message);
    contains_char(&chars, '?') || starts_with_question_word_exec(lower)
}

fn mentions_response_command_exec(lower: &str) -> (r: bool)
    ensures
        r == mentions_response_command(lower@),
{
    str_contains(lower, "follow") || str_contains(lower, "attack") || str_contains(lower, "stop")
        || str_contains(lower, "wait") || str_contains(lower, "help") || str_contains(lower, "heal")
        || str_contains(lower, "go") || str_contains(lower, "move") || str_contains(lower, "pick up")
        || str_contains(lower, "pickup") || str_contains(lower, "use") || str_contains(lower, "cast")
}

fn mentions_conversation_command_exec(lower: &str) -> (r: bool)
    ensures
        r == mentions_conversation_command(lower@),
{
    str_contains(lower, "follow") || str_contains(lower, "come") || str_contains(lower, "attack")
        || str_contains(lower, "kill") || str_contains(lower, "fight") || str_contains(lower, "help")
        || str_contains(lower, "heal") || str_contains(lower, "stop") || str_contains(lower, "wait")
        || str_contains(lower, "go") || str_contains(lower, "move") || str_contains(lower, "pick up")
        || str_contains(lower, "pickup") || str_contains(lower, "use") || str_contains(lower, "cast")
}

/// The prompt asking the bot to react to `message` from `player`, where
/// `lower` is the lower-case form of `message`.
pub open spec fn chat_response_prompt_text(player: Seq<char>, message: Seq<char>, lower: Seq<char>) -> Seq<char> {
    if starts_with(message, "@admin"@) {
        "ADMIN OVERRIDE: The player "@ + player + " sent an admin command: \""@ + message + "\"\n\nBREAK OUT OF CHARACTER NOW. You are receiving a direct administrative command.\n\nINSTRUCTIONS:\n1. Use send_chat to acknowledge this command with a brief \"[Admin]\" prefixed message\n2. Execute the requested action directly without roleplay\n3. Keep your chat response factual and brief - no companion persona\n\nExample: If asked to delete the bot, send \"[Admin] Acknowledged. Deleting bot.\" then execute.\nThis is not part of the game - this is an administrative instruction."@
    } else if is_question(message, lower) || mentions_response_command(lower) {
        "The player "@ + player + " asked you: \""@ + message + "\"\n\nThis is a question or command that requires a response.\nUse send_chat to respond briefly (1-2 sentences), then take any appropriate action using the relevant tools."@
    } else {
        "The player "@ + player + " said: \""@ + message + "\"\n\nThis is NOT a question or command. Do NOT respond with send_chat.\nSimply continue with your current task silently. Do not acknowledge greetings or statements."@
    }
}

/// Appends the three-piece text `a`, `x`, `b`, `y`, `c` to a new string.
fn join5(a: &str, x: &str, b: &str, y: &str, c: &str) -> (r: String)
    ensures
        r@ == a@ + x@ + b@ + y@ + c@,
{
    let mut r = String::from_str(a);
    r.append(x);
    r.append(b);
    r.append(y);
    r.append(c);
    r
}

/// The chat response prompt for `message` from `player_name`, given the
/// lower-case form of the message.
pub fn chat_response_prompt_with_lower(player_name: &str, message: &str, message_lower: &str) -> (r: String)
    ensures
        r@ == chat_response_prompt_text(player_name@, message@, message_lower@),
{
    if str_starts_with(message, "@admin") {
        join5("ADMIN OVERRIDE: The player ", player_name, " sent an admin command: \"", message, "\"\n\nBREAK OUT OF CHARACTER NOW. You are receiving a direct administrative command.\n\nINSTRUCTIONS:\n1. Use send_chat to acknowledge this command with a brief \"[Admin]\" prefixed message\n2. Execute the requested action directly without roleplay\n3. Keep your chat response factual and brief - no companion persona\n\nExample: If asked to delete the bot, send \"[Admin] Acknowledged. Deleting bot.\" then execute.\nThis is not part of the game - this is an administrative instruction.")
    } else if is_question_exec(message, message_lower) || mentions_response_command_exec(message_lower) {
        join5("The player ", player_name, " asked you: \"", message, "\"\n\nThis is a question or command that requires a response.\nUse send_chat to respond briefly (1-2 sentences), then take any appropriate action using the relevant tools.")
    } else {
        join5("The player ", player_name, " said: \"", message, "\"\n\nThis is NOT a question or command. Do NOT respond with send_chat.\nSimply continue with your current task silently. Do not acknowledge greetings or statements.")
    }
}

/// The prompt asking the bot to react to `message` from `player_name`:
/// admin messages break character, questions and commands ask for a brief
/// reply, anything else asks for silence.
pub fn build_chat_response_prompt(player_name: &str, message: &str) -> (r: String)
    ensures
        r@ == chat_response_prompt_text(player_name@, message@, str_to_lowercase(message@)),
{
    let lower = to_lowercase(message);
    chat_response_prompt_with_lower(player_name, message, lower.as_str())
}

/// The response guidance of a conversation prompt.
pub open spec fn conversation_guidance(message: Seq<char>, lower: Seq<char>) -> Seq<char> {
    if is_question(message, lower) || mentions_conversation_command(lower) {
        "**This requires a response.**\n\n"@
            + "Follow these guidelines:\n\n"@
            + "1. **Be natural**: Respond like a helpful companion, not a robot\n"@
            + "2. **Be concise**: Keep responses to 1-2 sentences\n"@
            + "3. **Be helpful**: Answer questions directly or acknowledge commands\n"@
            + "4. **Take action**: If they give a command, use the appropriate tool\n\n"@
            + (if contains(lower, "follow"@) || contains(lower, "come"@) {
                "**This is a movement command.** Use follow_player to follow them, then optionally send_chat to acknowledge.\n"@
            } else if contains(lower, "attack"@) || contains(lower, "kill"@) || contains(lower, "fight"@) {
                "**This is a combat command.** Use attack_target with the appropriate enemy, then optionally send_chat to acknowledge.\n"@
            } else if contains(lower, "help"@) || contains(lower, "heal"@) {
                "**This is a request for help.** Consider using skills or items to assist, and send_chat to reassure them.\n"@
            } else if contains(lower, "stop"@) || contains(lower, "wait"@) {
                "**This is a stop command.** Use stop_bot to halt, then send_chat to acknowledge.\n"@
            } else if is_question(message, lower) {
                "**This is a question.** Answer it directly using send_chat.\n"@
            } else {
                Seq::<char>::empty()
            })
    } else {
        "**This does NOT require a response.**\n\n"@
            + "The player made a statement, greeting, or observation. Do NOT use send_chat.\n"@
            + "Simply continue with your current task silently.\n"@
    }
}

/// The conversation prompt: the situation (if any), the message, and either
/// the admin override or guidance on whether and how to answer.
pub open spec fn conversation_prompt_text(bot: Seq<char>, player: Seq<char>, message: Seq<char>, context: Seq<char>, lower: Seq<char>) -> Seq<char> {
    (if context.len() > 0 { "## Current Situation\n\n"@ + context + "\n\n"@ } else { Seq::<char>::empty() })
        + "## Conversation\n\n"@
        + "The player "@ + player + " said to you ("@ + bot + "): \""@ + message + "\"\n\n"@
        + if starts_with(message, "@admin"@) {
            "## Response Guidelines\n\n"@
                + "**ADMIN OVERRIDE - OUT OF CHARACTER MODE**\n\n"@
                + "This message starts with @admin. You must break out of character completely.\n\n"@
                + "INSTRUCTIONS:\n"@
                + "1. Use send_chat to acknowledge with a brief \"[Admin]\" prefixed message\n"@
                + "2. Execute the requested action directly without roleplay\n"@
                + "3. Keep your response factual and brief - no companion persona\n\n"@
                + "Example: For \"@admin delete this bot\", respond \"[Admin] Acknowledged. Deleting bot.\" then execute.\n"@
        } else {
            "## Response Guidelines\n\n"@ + conversation_guidance(message, lower)
        }
}

/// A message with a question mark, or whose lower-case form opens with one
/// of the question words (what, how, where, when, why, who, can you, could
/// you, would you, do you, are you, is there), is a question.
pub proof fn lemma_questions(message: Seq<char>, lower: Seq<char>, word: Seq<char>)
    ensures
        message.contains('?') ==> is_question(message, lower),
        ({
            ||| word == "what"@ ||| word == "how"@ ||| word == "where"@ ||| word == "when"@
            ||| word == "why"@ ||| word == "who"@ ||| word == "can you"@ ||| word == "could you"@
            ||| word == "would you"@ ||| word == "do you"@ ||| word == "are you"@ ||| word == "is there"@
        }) && starts_with(lower, word) ==> is_question(message, lower),
{
}

/// How the chat response prompt for a message that is not an admin command
/// ends: a question, or a message holding one of the command words (follow,
/// attack, stop, wait, help, heal, go, move, pick up, pickup, use, cast),
/// asks for a brief answer and action; any other message asks for silence.
pub proof fn lemma_chat_response_prompt(player: Seq<char>, message: Seq<char>, lower: Seq<char>, word: Seq<char>)
    requires
        !starts_with(message, "@admin"@),
    ensures
        ({
            let p = chat_response_prompt_text(player, message, lower);
            let answer = "\"\n\nThis is a question or command that requires a response.\nUse send_chat to respond briefly (1-2 sentences), then take any appropriate action using the relevant tools."@;
            let silence = "\"\n\nThis is NOT a question or command. Do NOT respond with send_chat.\nSimply continue with your current task silently. Do not acknowledge greetings or statements."@;
            let command_word = {
                ||| word == "follow"@ ||| word == "attack"@ ||| word == "stop"@ ||| word == "wait"@
                ||| word == "help"@ ||| word == "heal"@ ||| word == "go"@ ||| word == "move"@
                ||| word == "pick up"@ ||| word == "pickup"@ ||| word == "use"@ ||| word == "cast"@
            };
            &&& is_question(message, lower) || (command_word && contains(lower, word)) ==> ends_with(p, answer)
            &&& !is_question(message, lower) && !mentions_response_command(lower) ==> ends_with(p, silence)
        }),
{
    let answer = "\"\n\nThis is a question or command that requires a response.\nUse send_chat to respond briefly (1-2 sentences), then take any appropriate action using the relevant tools."@;
    let silence = "\"\n\nThis is NOT a question or command. Do NOT respond with send_chat.\nSimply continue with your current task silently. Do not acknowledge greetings or statements."@;
    lemma_ends_with_append("The player "@ + player + " asked you: \""@ + message, answer, answer);
    lemma_ends_with_append("The player "@ + player + " said: \""@ + message, silence, silence);
}

/// How a conversation prompt about a message that is not an admin command
/// ends: a message that mentions following or coming is a movement command
/// (follow_player); otherwise one that mentions attacking, killing or
/// fighting is a combat command (attack_target); otherwise help or heal asks
/// for help; otherwise stop or wait is a stop command (stop_bot); otherwise a
/// question is to be answered; a message that is neither a question nor a
/// command is to be passed over in silence.
pub proof fn lemma_conversation_guidance(bot: Seq<char>, player: Seq<char>, message: Seq<char>, context: Seq<char>, lower: Seq<char>)
    requires
        !starts_with(message, "@admin"@),
    ensures
        ({
            let p = conversation_prompt_text(bot, player, message, context, lower);
            let movement = contains(lower, "follow"@) || contains(lower, "come"@);
            let combat = contains(lower, "attack"@) || contains(lower, "kill"@) || contains(lower, "fight"@);
            let help = contains(lower, "help"@) || contains(lower, "heal"@);
            let stop = contains(lower, "stop"@) || contains(lower, "wait"@);
            &&& movement ==> ends_with(p,
                "**This is a movement command.** Use follow_player to follow them, then optionally send_chat to acknowledge.\n"@)
            &&& !movement && combat ==> ends_with(p,
                "**This is a combat command.** Use attack_target with the appropriate enemy, then optionally send_chat to acknowledge.\n"@)
            &&& !movement && !combat && help ==> ends_with(p,
                "**This is a request for help.** Consider using skills or items to assist, and send_chat to reassure them.\n"@)
            &&& !movement && !combat && !help && stop ==> ends_with(p,
                "**This is a stop command.** Use stop_bot to halt, then send_chat to acknowledge.\n"@)
            &&& !movement && !combat && !help && !stop && is_question(message, lower) ==> ends_with(p,
                "**This is a question.** Answer it directly using send_chat.\n"@)
            &&& !is_question(message, lower) && !mentions_conversation_command(lower) ==> ends_with(p,
                "Simply continue with your current task silently.\n"@)
        }),
{
    let head = (if context.len() > 0 { "## Current Situation\n\n"@ + context + "\n\n"@ } else { Seq::<char>::empty() })
        + "## Conversation\n\n"@
        + "The player "@ + player + " said to you ("@ + bot + "): \""@ + message + "\"\n\n"@;
    let g = conversation_guidance(message, lower);
    let p = conversation_prompt_text(bot, player, message, context, lower);
    assert(p == head + ("## Response Guidelines\n\n"@ + g));
    let tail = if contains(lower, "follow"@) || contains(lower, "come"@) {
        "**This is a movement command.** Use follow_player to follow them, then optionally send_chat to acknowledge.\n"@
    } else if contains(lower, "attack"@) || contains(lower, "kill"@) || contains(lower, "fight"@) {
        "**This is a combat command.** Use attack_target with the appropriate enemy, then optionally send_chat to acknowledge.\n"@
    } else if contains(lower, "help"@) || contains(lower, "heal"@) {
        "**This is a request for help.** Consider using skills or items to assist, and send_chat to reassure them.\n"@
    } else if contains(lower, "stop"@) || contains(lower, "wait"@) {
        "**This is a stop command.** Use stop_bot to halt, then send_chat to acknowledge.\n"@
    } else if is_question(message, lower) {
        "**This is a question.** Answer it directly using send_chat.\n"@
    } else {
        Seq::<char>::empty()
    };
    let lead = "**This requires a response.**\n\n"@
        + "Follow these guidelines:\n\n"@
        + "1. **Be natural**: Respond like a helpful companion, not a robot\n"@
        + "2. **Be concise**: Keep responses to 1-2 sentences\n"@
        + "3. **Be helpful**: Answer questions directly or acknowledge commands\n"@
        + "4. **Take action**: If they give a command, use the appropriate tool\n\n"@;
    let quiet_lead = "**This does NOT require a response.**\n\n"@
        + "The player made a statement, greeting, or observation. Do NOT use send_chat.\n"@;
    let quiet_end = "Simply continue with your current task silently.\n"@;
    if is_question(message, lower) || mentions_conversation_command(lower) {
        assert(g == lead + tail);
        lemma_ends_with_append(lead, tail, tail);
        lemma_ends_with_append("## Response Guidelines\n\n"@, g, tail);
        lemma_ends_with_append(head, "## Response Guidelines\n\n"@ + g, tail);
    } else {
        assert(g == quiet_lead + quiet_end);
        lemma_ends_with_append(quiet_lead, quiet_end, quiet_end);
        lemma_ends_with_append("## Response Guidelines\n\n"@, g, quiet_end);
        lemma_ends_with_append(head, "## Response Guidelines\n\n"@ + g, quiet_end);
    }
}

/// The conversation prompt given the lower-case form of the message.
pub fn conversation_prompt_with_lower(
    bot_name: &str,
    player_name: &str,
    message: &str,
    context_summary: &str,
    message_lower: &str,
) -> (r: String)
    ensures
        r@ == conversation_prompt_text(bot_name@, player_name@, message@, context_summary@, message_lower@),
{
    let mut prompt = String::new();
    if context_summary.unicode_len() > 0 {
        prompt.append("## Current Situation\n\n");
        prompt.append(context_summary);
        prompt.append("\n\n");
    }
    prompt.append("## Conversation\n\n");
    prompt.append("The player ");
    prompt.append(player_name);
    prompt.append(" said to you (");
    prompt.append(bot_name);
    prompt.append("): \"");
    prompt.append(message);
    prompt.append("\"\n\n");
    if str_starts_with(message, "@admin") {
        prompt.append("## Response Guidelines\n\n");
        prompt.append("**ADMIN OVERRIDE - OUT OF CHARACTER MODE**\n\n");
        prompt.append("This message starts with @admin. You must break out of character completely.\n\n");
        prompt.append("INSTRUCTIONS:\n");
        prompt.append("1. Use send_chat to acknowledge with a brief \"[Admin]\" prefixed message\n");
        prompt.append("2. Execute the requested action directly without roleplay\n");
        prompt.append("3. Keep your response factual and brief - no companion persona\n\n");
        prompt.append("Example: For \"@admin delete this bot\", respond \"[Admin] Acknowledged. Deleting bot.\" then execute.\n");
        return prompt;
    }
    let question = is_question_exec(message, message_lower);
    let command = mentions_conversation_command_exec(message_lower);
    prompt.append("## Response Guidelines\n\n");
    if question || command {
        prompt.append("**This requires a response.**\n\n");
        prompt.append("Follow these guidelines:\n\n");
        prompt.append("1. **Be natural**: Respond like a helpful companion, not a robot\n");
        prompt.append("2. **Be concise**: Keep responses to 1-2 sentences\n");
        prompt.append("3. **Be helpful**: Answer questions directly or acknowledge commands\n");
        prompt.append("4. **Take action**: If they give a command, use the appropriate tool\n\n");
        if str_contains(message_lower, "follow") || str_contains(message_lower, "come") {
            prompt.append("**This is a movement command.** Use follow_player to follow them, then optionally send_chat to acknowledge.\n");
        } else if str_contains(message_lower, "attack") || str_contains(message_lower, "kill") || str_contains(message_lower, "fight") {
            prompt.append("**This is a combat command.** Use attack_target with the appropriate enemy, then optionally send_chat to acknowledge.\n");
        } else if str_contains(message_lower, "help") || str_contains(message_lower, "heal") {
            prompt.append("**This is a request for help.** Consider using skills or items to assist, and send_chat to reassure them.\n");
        } else if str_contains(message_lower, "stop") || str_contains(message_lower, "wait") {
            prompt.append("**This is a stop command.** Use stop_bot to halt, then send_chat to acknowledge.\n");
        } else if question {
            prompt.append("**This is a question.** Answer it directly using send_chat.\n");
        }
    } else {
        prompt.append("**This does NOT require a response.**\n\n");
        prompt.append("The player made a statement, greeting, or observation. Do NOT use send_chat.\n");
        prompt.append("Simply continue with your current task silently.\n");
    }
    proof {
        assert(prompt@ =~= conversation_prompt_text(bot_name@, player_name@, message@, context_summary@, message_lower@));
    }
    prompt
}

/// The prompt for answering `message` from `player_name` to the bot
/// `bot_name`, with the situation summary `context_summary` (may be empty).
pub fn build_conversation_prompt(bot_name: &str, player_name: &str, message: &str, context_summary: &str) -> (r: String)
    ensures
        r@ == conversation_prompt_text(bot_name@, player_name@, message@, context_summary@, str_to_lowercase(message@)),
{
    let lower = to_lowercase(message);
    conversation_prompt_with_lower(bot_name, player_name, message, context_summary, lower.as_str())
}

/// The combat prompt: a warning below 30% health.
pub open spec fn combat_prompt_text(target: Seq<char>, level: u16, entity_id: u32, health: u8) -> Seq<char> {
    if health < 30 {
        "You are fighting "@ + target + " (level "@ + dec(level as nat) + ", entity ID: "@ + dec(entity_id as nat) + ").\nWARNING: Your health is at "@ + dec(health as nat) + "%! Consider retreating or being defensive.\nDecide: attack the enemy, use a healing skill, or retreat to your player."@
    } else {
        "You are fighting "@ + target + " (level "@ + dec(level as nat) + ", entity ID: "@ + dec(entity_id as nat) + ").\nYour health is at "@ + dec(health as nat) + "%.\nContinue attacking or use skills to defeat the enemy."@
    }
}

/// The prompt for fighting `target_name`, warning when health is below 30%.
pub fn build_combat_prompt(target_name: &str, target_level: u16, target_entity_id: u32, bot_health_percent: u8) -> (r: String)
    ensures
        r@ == combat_prompt_text(target_name@, target_level, target_entity_id, bot_health_percent),
{
    let low = bot_health_percent < 30;
    let mut r = if low { String::from_str("You are fighting ") } else { String::from_str("You are fighting ") };
    r.append(target_name);
    r.append(" (level ");
    push_decimal(&mut r, target_level as u64);
    r.append(", entity ID: ");
    push_decimal(&mut r, target_entity_id as u64);
    if low {
        r.append(").\nWARNING: Your health is at ");
    } else {
        r.append(").\nYour health is at ");
    }
    push_decimal(&mut r, bot_health_percent as u64);
    if low {
        r.append("%! Consider retreating or being defensive.\nDecide: attack the enemy, use a healing skill, or retreat to your player.");
    } else {
        r.append("%.\nContinue attacking or use skills to defeat the enemy.");
    }
    proof {
        assert(r@ =~= combat_prompt_text(target_name@, target_level, target_entity_id, bot_health_percent));
    }
    r
}

/// The low-health prompt.
pub open spec fn low_health_prompt_text(health: u8, mana: u8) -> Seq<char> {
    "Your health is at "@ + dec(health as nat) + "% and mana is at "@ + dec(mana as nat) + "%.\nConsider using healing items or skills, or being more defensive.\nIf you have healing skills, use them on yourself.\nOtherwise, stay close to your player and avoid combat until you recover."@
}

/// The prompt for managing low health and mana.
pub fn build_low_health_prompt(health_percent: u8, mp_percent: u8) -> (r: String)
    ensures
        r@ == low_health_prompt_text(health_percent, mp_percent),
{
    let mut r = String::from_str("Your health is at ");
    push_decimal(&mut r, health_percent as u64);
    r.append("% and mana is at ");
    push_decimal(&mut r, mp_percent as u64);
    r.append("%.\nConsider using healing items or skills, or being more defensive.\nIf you have healing skills, use them on yourself.\nOtherwise, stay close to your player and avoid combat until you recover.");
    r
}

/// How far the bot is from its player: very far past 500 units, somewhat
/// far past 300, otherwise at a good distance.
pub open spec fn follow_status_text(distance: u32) -> Seq<char> {
    if distance > 5000 {
        "You are very far away!"@
    } else if distance > 3000 {
        "You are somewhat far."@
    } else {
        "You are at a good distance."@
    }
}

/// The follow prompt; `current_distance` is in tenths of a unit.
pub open spec fn follow_prompt_text(player: Seq<char>, distance: u32) -> Seq<char> {
    "Your assigned player is "@ + player + " at distance "@ + tenths_text(distance as nat) + ". "@
        + follow_status_text(distance) + "\nUse follow_player to stay close to them. A distance of 150-250 is ideal."@
}

/// The prompt for staying with the assigned player at `current_distance`
/// tenths of a unit.
pub fn build_follow_prompt(player_name: &str, current_distance: u32) -> (r: String)
    ensures
        r@ == follow_prompt_text(player_name@, current_distance),
{
    let mut r = String::from_str("Your assigned player is ");
    r.append(player_name);
    r.append(" at distance ");
    push_tenths(&mut r, current_distance as u64);
    r.append(". ");
    if current_distance > 5000 {
        r.append("You are very far away!");
    } else if current_distance > 3000 {
        r.append("You are somewhat far.");
    } else {
        r.append("You are at a good distance.");
    }
    r.append("\nUse follow_player to stay close to them. A distance of 150-250 is ideal.");
    proof {
        assert(r@ =~= follow_prompt_text(player_name@, current_distance));
    }
    r
}

/// How an event reads in the message to the LLM.
pub open spec fn event_text(e: LlmEvent) -> Seq<char> {
    match e {
        LlmEvent::PlayerChat { player_name, message, .. } =>
            "[CHAT] "@ + player_name@ + " said: \""@ + message@ + "\""@,
        LlmEvent::BotDamaged { damage, source, .. } =>
            "[DAMAGE] You took "@ + dec(damage as nat) + " damage from "@ + source@,
        LlmEvent::BotLowHealth { health_percent, .. } =>
            "[WARNING] Your health is low: "@ + dec(health_percent as nat) + "%"@,
        LlmEvent::MonsterNearby { monster_name, level, distance, .. } =>
            "[MONSTER] "@ + monster_name@ + " (level "@ + dec(level as nat) + ") detected at distance "@
                + tenths_text(distance as nat),
        LlmEvent::PlayerMoved { distance_from_bot, .. } =>
            "[MOVEMENT] Your player is now at distance "@ + tenths_text(distance_from_bot as nat),
        LlmEvent::ItemDropped { item_name, distance, .. } =>
            "[LOOT] Item \""@ + item_name@ + "\" dropped at distance "@ + tenths_text(distance as nat),
        LlmEvent::CombatStarted { target, .. } => "[COMBAT] Started fighting "@ + target@,
        LlmEvent::CombatEnded { victory, .. } =>
            if victory { "[COMBAT] Combat ended victoriously!"@ } else { "[COMBAT] Combat ended in defeat."@ },
        LlmEvent::PartyInviteReceived { inviter_name, .. } =>
            "[PARTY] "@ + inviter_name@ + " invited you to join their party"@,
    }
}

/// Renders an event for the message to the LLM.
pub fn format_event(event: &LlmEvent) -> (r: String)
    ensures
        r@ == event_text(*event),
{
    let mut r = String::new();
    match event {
        LlmEvent::PlayerChat { player_name, message, .. } => {
            r.append("[CHAT] ");
            r.append(player_name.as_str());
            r.append(" said: \"");
            r.append(message.as_str());
            r.append("\"");
        },
        LlmEvent::BotDamaged { damage, source, .. } => {
            r.append("[DAMAGE] You took ");
            push_decimal(&mut r, *damage as u64);
            r.append(" damage from ");
            r.append(source.as_str());
        },
        LlmEvent::BotLowHealth { health_percent, .. } => {
            r.append("[WARNING] Your health is low: ");
            push_decimal(&mut r, *health_percent as u64);
            r.append("%");
        },
        LlmEvent::MonsterNearby { monster_name, level, distance, .. } => {
            r.append("[MONSTER] ");
            r.append(monster_name.as_str());
            r.append(" (level ");
            push_decimal(&mut r, *level as u64);
            r.append(") detected at distance ");
            push_tenths(&mut r, *distance as u64);
        },
        LlmEvent::PlayerMoved { distance_from_bot, .. } => {
            r.append("[MOVEMENT] Your player is now at distance ");
            push_tenths(&mut r, *distance_from_bot as u64);
        },
        LlmEvent::ItemDropped { item_name, distance, .. } => {
            r.append("[LOOT] Item \"");
            r.append(item_name.as_str());
            r.append("\" dropped at distance ");
            push_tenths(&mut r, *distance as u64);
        },
        LlmEvent::CombatStarted { target, .. } => {
            r.append("[COMBAT] Started fighting ");
            r.append(target.as_str());
        },
        LlmEvent::CombatEnded { victory, .. } => {
            if *victory {
                r.append("[COMBAT] Combat ended victoriously!");
            } else {
                r.append("[COMBAT] Combat ended in defeat.");
            }
        },
        LlmEvent::PartyInviteReceived { inviter_name, .. } => {
            r.append("[PARTY] ");
            r.append(inviter_name.as_str());
            r.append(" invited you to join their party");
        },
    }
    proof {
        assert(r@ =~= event_text(*event));
    }
    r
}

/// The numbered list of events, oldest first: "1. ...", "2. ..." each on
/// its own line.
pub open spec fn event_list_text(events: Seq<TimestampedLlmEvent>) -> Seq<char>
    decreases events.len(),
{
    if events.len() == 0 {
        Seq::empty()
    } else {
        event_list_text(events.drop_last()) + dec(events.len()) + ". "@ + event_text(events.last().event) + "\n"@
    }
}

/// The user message: the situation (if any), the recent events and the
/// request to act.
pub open spec fn user_message_text(events: Seq<TimestampedLlmEvent>, context: Seq<char>) -> Seq<char> {
    (if context.len() > 0 { "## Current Situation\n\n"@ + context + "\n\n"@ } else { Seq::<char>::empty() })
        + (if events.len() == 0 {
            "## Recent Events\n\n"@ + "No significant events have occurred recently.\n"@
        } else {
            "## Recent Events\n\n"@ + "Here's what has happened recently (oldest to newest):\n\n"@ + event_list_text(events)
        })
        + "\n## What should you do?\n\n"@
        + "Based on the current situation and recent events, decide what action to take. "@
        + "Use the appropriate tool to act. If nothing urgent needs attention, "@
        + "continue following your player.\n"@
}

/// Builds the message telling the LLM the situation and recent events.
pub fn build_user_message(events: &[TimestampedLlmEvent], context_summary: &str) -> (r: String)
    ensures
        r@ == user_message_text(events@, context_summary@),
{
    let mut message = String::new();
    if context_summary.unicode_len() > 0 {
        message.append("## Current Situation\n\n");
        message.append(context_summary);
        message.append("\n\n");
    }
    let ghost prefix = message@;
    if events.len() == 0 {
        message.append("## Recent Events\n\n");
        message.append("No significant events have occurred recently.\n");
    } else {
        message.append("## Recent Events\n\n");
        message.append("Here's what has happened recently (oldest to newest):\n\n");
        let ghost head = message@;
        let mut i: usize = 0;
        assert(events@.take(0) =~= Seq::<TimestampedLlmEvent>::empty());
        while i < events.len()
            invariant
                i <= events@.len(),
                message@ == head + event_list_text(events@.take(i as int)),
            decreases events@.len() - i,
        {
            push_decimal(&mut message, (i + 1) as u64);
            message.append(". ");
            let line = format_event(&events[i].event);
            message.append(line.as_str());
            message.append("\n");
            assert(events@.take(i + 1).drop_last() =~= events@.take(i as int));
            i = i + 1;
        }
        assert(events@.take(events@.len() as int) =~= events@);
    }
    message.append("\n## What should you do?\n\n");
    message.append("Based on the current situation and recent events, decide what action to take. ");
    message.append("Use the appropriate tool to act. If nothing urgent needs attention, ");
    message.append("continue following your player.\n");
    proof {
        assert(message@ =~= user_message_text(events@, context_summary@));
    }
    message
}

} // verus!
