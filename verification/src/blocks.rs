//! The chat message model: typed display blocks (divider, text section,
//! context footer) with marked-up text, plus the plain error payload.
//!
//! Each block type has a ghost view made of sequences, so contracts can
//! state exactly what text a formatter call produces.

use vstd::prelude::*;
use vstd::string::StringExecFns;

verus! {

/// Marked-up text: `text_type` is "mrkdwn" or "plain_text".
#[derive(Debug)]
pub struct SlackText {
    pub text_type: String,
    pub text: String,
}

#[verifier::ext_equal]
pub ghost struct SlackTextV {
    pub text_type: Seq<char>,
    pub text: Seq<char>,
}

impl View for SlackText {
    type V = SlackTextV;

    open spec fn view(&self) -> SlackTextV {
        SlackTextV { text_type: self.text_type@, text: self.text@ }
    }
}

/// A short text element of a context block.
#[derive(Debug)]
pub struct SlackPlaceholder {
    pub placeholder_type: String,
    pub text: String,
    pub emoji: Option<bool>,
}

#[verifier::ext_equal]
pub ghost struct SlackPlaceholderV {
    pub placeholder_type: Seq<char>,
    pub text: Seq<char>,
    pub emoji: Option<bool>,
}

impl View for SlackPlaceholder {
    type V = SlackPlaceholderV;

    open spec fn view(&self) -> SlackPlaceholderV {
        SlackPlaceholderV {
            placeholder_type: self.placeholder_type@,
            text: self.text@,
            emoji: self.emoji,
        }
    }
}

impl Default for SlackPlaceholder {
    fn default() -> (r: SlackPlaceholder)
        ensures
            r@ == (SlackPlaceholderV {
                placeholder_type: "plain_text"@,
                text: Seq::<char>::empty(),
                emoji: None,
            }),
    {
        SlackPlaceholder {
            placeholder_type: String::from_str("plain_text"),
            text: String::new(),
            emoji: None,
        }
    }
}

/// A select-menu option.
#[derive(Debug)]
pub struct SlackOption {
    pub text: SlackPlaceholder,
    pub value: String,
}

#[verifier::ext_equal]
pub ghost struct SlackOptionV {
    pub text: SlackPlaceholderV,
    pub value: Seq<char>,
}

impl View for SlackOption {
    type V = SlackOptionV;

    open spec fn view(&self) -> SlackOptionV {
        SlackOptionV { text: self.text@, value: self.value@ }
    }
}

/// A block accessory (a static select menu).
#[derive(Debug)]
pub struct SlackAccessory {
    pub accessory_type: String,
    pub placeholder: Option<SlackPlaceholder>,
    pub options: Vec<SlackOption>,
    pub action_id: String,
}

#[verifier::ext_equal]
pub ghost struct SlackAccessoryV {
    pub accessory_type: Seq<char>,
    pub placeholder: Option<SlackPlaceholderV>,
    pub options: Seq<SlackOptionV>,
    pub action_id: Seq<char>,
}

impl View for SlackAccessory {
    type V = SlackAccessoryV;

    open spec fn view(&self) -> SlackAccessoryV {
        SlackAccessoryV {
            accessory_type: self.accessory_type@,
            placeholder: match self.placeholder {
                Some(p) => Some(p@),
                None => None,
            },
            options: self.options@.map_values(|o: SlackOption| o@),
            action_id: self.action_id@,
        }
    }
}

impl Default for SlackAccessory {
    fn default() -> (r: SlackAccessory)
        ensures
            r@ == (SlackAccessoryV {
                accessory_type: "static_select"@,
                placeholder: None,
                options: Seq::<SlackOptionV>::empty(),
                action_id: Seq::<char>::empty(),
            }),
    {
        let r = SlackAccessory {
            accessory_type: String::from_str("static_select"),
            placeholder: None,
            options: Vec::new(),
            action_id: String::new(),
        };
        proof {
            assert(r@.options =~= Seq::<SlackOptionV>::empty());
        }
        r
    }
}

/// One display block.  `block_type` is "section", "divider" or
/// "context"; the optional parts carry that block kind's content.
#[derive(Debug)]
pub struct SlackBlock {
    pub block_type: String,
    pub text: Option<SlackText>,
    pub accessory: Option<SlackAccessory>,
    pub elements: Option<Vec<SlackPlaceholder>>,
    pub fields: Option<Vec<SlackText>>,
}

#[verifier::ext_equal]
pub ghost struct SlackBlockV {
    pub block_type: Seq<char>,
    pub text: Option<SlackTextV>,
    pub accessory: Option<SlackAccessoryV>,
    pub elements: Option<Seq<SlackPlaceholderV>>,
    pub fields: Option<Seq<SlackTextV>>,
}

impl View for SlackBlock {
    type V = SlackBlockV;

    open spec fn view(&self) -> SlackBlockV {
        SlackBlockV {
            block_type: self.block_type@,
            text: match self.text {
                Some(t) => Some(t@),
                None => None,
            },
            accessory: match self.accessory {
                Some(a) => Some(a@),
                None => None,
            },
            elements: match self.elements {
                Some(es) => Some(es@.map_values(|p: SlackPlaceholder| p@)),
                None => None,
            },
            fields: match self.fields {
                Some(fs) => Some(fs@.map_values(|t: SlackText| t@)),
                None => None,
            },
        }
    }
}

/// The view of a plain "section" block with no content set.
pub open spec fn spec_default_block() -> SlackBlockV {
    SlackBlockV { block_type: "section"@, text: None, accessory: None, elements: None, fields: None }
}

impl Default for SlackBlock {
    fn default() -> (r: SlackBlock)
        ensures
            r@ == spec_default_block(),
    {
        SlackBlock {
            block_type: String::from_str("section"),
            text: None,
            accessory: None,
            elements: None,
            fields: None,
        }
    }
}

/// The view of a divider block.
pub open spec fn spec_divider_v() -> SlackBlockV {
    SlackBlockV { block_type: "divider"@, text: None, accessory: None, elements: None, fields: None }
}

/// The view of a "section" block holding one mrkdwn text.
pub open spec fn spec_text_section_v(text: Seq<char>) -> SlackBlockV {
    SlackBlockV {
        block_type: "section"@,
        text: Some(SlackTextV { text_type: "mrkdwn"@, text }),
        accessory: None,
        elements: None,
        fields: None,
    }
}

/// The view of a "context" block holding one mrkdwn element.
pub open spec fn spec_context_v(text: Seq<char>) -> SlackBlockV {
    SlackBlockV {
        block_type: "context"@,
        text: None,
        accessory: None,
        elements: Some(
            seq![SlackPlaceholderV { placeholder_type: "mrkdwn"@, text, emoji: None }],
        ),
        fields: None,
    }
}

/// The view of a "section" block holding a two-column field list, each
/// field mrkdwn.
pub open spec fn spec_fields_section_v(fields: Seq<Seq<char>>) -> SlackBlockV {
    SlackBlockV {
        block_type: "section"@,
        text: None,
        accessory: None,
        elements: None,
        fields: Some(fields.map_values(|f: Seq<char>| SlackTextV { text_type: "mrkdwn"@, text: f })),
    }
}

/// Builds a divider block.
pub fn divider_block() -> (r: SlackBlock)
    ensures
        r@ == spec_divider_v(),
{
    SlackBlock {
        block_type: String::from_str("divider"),
        text: None,
        accessory: None,
        elements: None,
        fields: None,
    }
}

/// Builds a "section" block holding one mrkdwn text.
pub fn text_section_block(text: String) -> (r: SlackBlock)
    ensures
        r@ == spec_text_section_v(text@),
{
    SlackBlock {
        block_type: String::from_str("section"),
        text: Some(SlackText { text_type: String::from_str("mrkdwn"), text }),
        accessory: None,
        elements: None,
        fields: None,
    }
}

/// Builds a "context" block holding one mrkdwn element.
pub fn context_block(text: String) -> (r: SlackBlock)
    ensures
        r@ == spec_context_v(text@),
{
    let ghost t = text@;
    let mut elements: Vec<SlackPlaceholder> = Vec::new();
    elements.push(
        SlackPlaceholder { placeholder_type: String::from_str("mrkdwn"), text, emoji: None },
    );
    proof {
        assert(elements@.map_values(|p: SlackPlaceholder| p@) =~= seq![
            SlackPlaceholderV { placeholder_type: "mrkdwn"@, text: t, emoji: None },
        ]);
    }
    let r = SlackBlock {
        block_type: String::from_str("context"),
        text: None,
        accessory: None,
        elements: Some(elements),
        fields: None,
    };
    r
}

/// Builds a "section" block with a mrkdwn field list.
pub fn fields_section_block(fields: Vec<SlackText>) -> (r: SlackBlock)
    requires
        forall|i: int| 0 <= i < fields@.len() ==> fields@[i].text_type@ == "mrkdwn"@,
    ensures
        r@ == spec_fields_section_v(fields@.map_values(|t: SlackText| t.text@)),
{
    proof {
        assert(fields@.map_values(|t: SlackText| t@) =~= fields@.map_values(
            |t: SlackText| t.text@,
        ).map_values(|f: Seq<char>| SlackTextV { text_type: "mrkdwn"@, text: f }));
    }
    let r = SlackBlock {
        block_type: String::from_str("section"),
        text: None,
        accessory: None,
        elements: None,
        fields: Some(fields),
    };
    r
}

/// The response wrapper the chat client is sent on success.
#[derive(Debug)]
pub struct SlackBlockResponse {
    pub blocks: Vec<SlackBlock>,
    pub response_type: Option<String>,
}

#[verifier::ext_equal]
pub ghost struct SlackBlockResponseV {
    pub blocks: Seq<SlackBlockV>,
    pub response_type: Option<Seq<char>>,
}

impl View for SlackBlockResponse {
    type V = SlackBlockResponseV;

    open spec fn view(&self) -> SlackBlockResponseV {
        SlackBlockResponseV {
            blocks: self.blocks@.map_values(|b: SlackBlock| b@),
            response_type: match self.response_type {
                Some(t) => Some(t@),
                None => None,
            },
        }
    }
}

/// The plain error payload the chat client is sent on failure.
#[derive(Debug)]
pub struct SlackErrorResponse {
    pub text: String,
    pub response_type: String,
}

impl SlackErrorResponse {
    pub fn new(message: String) -> (r: SlackErrorResponse)
        ensures
            r.text == message,
            r.response_type@ == "ephemeral"@,
    {
        SlackErrorResponse { text: message, response_type: String::from_str("ephemeral") }
    }
}

} // verus!
