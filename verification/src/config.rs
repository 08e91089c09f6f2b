//! The sink's configuration and the tagged tuple that carries it between
//! processes.

use crate::error::SinkError;
use crate::text::texts;
use crate::value::{render, rendering, shapes, Shape, Value};
use vstd::prelude::*;
use vstd::string::*;

verus! {

/// Where a Kafka sink writes: the brokers to contact first and the topic to
/// send to.
///
/// A configuration is made once by the controlling process, travels to each
/// worker as the tuple of [`KafkaOutputConfig::__getstate__`], and is
/// restored there by [`KafkaOutputConfig::__setstate__`]. Its topic is never
/// empty.
#[derive(Debug, PartialEq, Eq)]
pub struct KafkaOutputConfig {
    brokers: Vec<String>,
    topic: String,
}

/// The mathematical content of a [`KafkaOutputConfig`].
pub ghost struct ConfigView {
    /// The `host:port` strings of the brokers, in order.
    pub brokers: Seq<Seq<char>>,
    /// The topic that records are sent to.
    pub topic: Seq<char>,
}

impl View for KafkaOutputConfig {
    type V = ConfigView;

    closed spec fn view(&self) -> ConfigView {
        ConfigView { brokers: texts(self.brokers@), topic: self.topic@ }
    }
}

/// The tag that marks a state tuple as that of a Kafka sink.
pub open spec fn type_tag() -> Seq<char> {
    "KafkaOutputConfig"@
}

/// The topic of a configuration that waits to be restored.
pub open spec fn placeholder_topic() -> Seq<char> {
    "UNINIT_PICKLED_STRING"@
}

/// Each text as a text value.
pub open spec fn text_shapes(items: Seq<Seq<char>>) -> Seq<Shape> {
    items.map_values(|t: Seq<char>| Shape::Text(t))
}

/// The state tuple of a configuration: the type tag, the list of brokers
/// and the topic.
pub open spec fn state_of(config: ConfigView) -> Shape {
    Shape::Tuple(
        seq![
            Shape::Text(type_tag()),
            Shape::List(text_shapes(config.brokers)),
            Shape::Text(config.topic),
        ],
    )
}

/// Whether a value is a list or a tuple that holds text strings only.
pub open spec fn is_text_sequence(shape: Shape) -> bool {
    match shape {
        Shape::List(items) => forall|i: int| 0 <= i < items.len() ==> items[i] is Text,
        Shape::Tuple(items) => forall|i: int| 0 <= i < items.len() ==> items[i] is Text,
        _ => false,
    }
}

/// The texts of a list or tuple of text strings, in order.
pub open spec fn texts_in(shape: Shape) -> Seq<Seq<char>>
    recommends
        is_text_sequence(shape),
{
    match shape {
        Shape::List(items) => items.map_values(|item: Shape| item->Text_0),
        Shape::Tuple(items) => items.map_values(|item: Shape| item->Text_0),
        _ => Seq::empty(),
    }
}

/// Whether a value is a tuple that starts with the type tag of a Kafka
/// sink.
pub open spec fn has_type_tag(state: Shape) -> bool {
    state matches Shape::Tuple(parts) && parts.len() > 0 && parts[0] == Shape::Text(type_tag())
}

/// Whether a value is the state tuple of some configuration: a tuple of the
/// type tag, a sequence of text strings and a topic that is not empty.
pub open spec fn is_state(state: Shape) -> bool {
    &&& state matches Shape::Tuple(parts)
    &&& parts.len() == 3
    &&& parts[0] == Shape::Text(type_tag())
    &&& is_text_sequence(parts[1])
    &&& parts[2] matches Shape::Text(topic)
    &&& topic.len() > 0
}

/// The configuration that a state tuple carries.
pub open spec fn restored(state: Shape) -> ConfigView
    recommends
        is_state(state),
{
    ConfigView { brokers: texts_in(state->Tuple_0[1]), topic: state->Tuple_0[2]->Text_0 }
}

/// The detail of the failure to restore a configuration from `state`.
pub open spec fn bad_state_detail(state: Shape) -> Seq<char> {
    "bad pickle contents for KafkaOutputConfig: "@ + rendering(state)
}

/// Reads the items of a list or tuple as text strings; `None` where one of
/// them is no text string.
fn read_texts(items: &Vec<Value>) -> (read: Option<Vec<String>>)
    ensures
        match read {
            Some(found) => {
                &&& forall|i: int| 0 <= i < items.len() ==> items[i]@ is Text
                &&& texts(found@) == shapes(*items).map_values(|item: Shape| item->Text_0)
            },
            None => exists|i: int| 0 <= i < items.len() && !(items[i]@ is Text),
        },
{
    let mut found: Vec<String> = Vec::new();
    let mut i: usize = 0;
    while i < items.len()
        invariant
            i <= items.len(),
            found@.len() == i,
            forall|k: int| 0 <= k < i ==> items[k]@ is Text,
            forall|k: int| 0 <= k < i ==> (#[trigger] found@[k])@ == items[k]@->Text_0,
        decreases items.len() - i,
    {
        match &items[i] {
            Value::Text(text) => {
                found.push(text.clone());
            },
            _ => {
                assert(!(items[i as int]@ is Text));
                return None;
            },
        }
        i += 1;
    }
    proof {
        assert(texts(found@) =~= shapes(*items).map_values(|item: Shape| item->Text_0));
    }
    Some(found)
}

/// A list or tuple with an item that is no text string is no sequence of
/// text strings.
proof fn lemma_mixed_items_are_no_texts(value: Value)
    requires
        match value {
            Value::List(items) => exists|i: int| 0 <= i < items.len() && !(items[i]@ is Text),
            Value::Tuple(items) => exists|i: int| 0 <= i < items.len() && !(items[i]@ is Text),
            _ => true,
        },
    ensures
        !is_text_sequence(value@),
{
    match value {
        Value::List(items) => {
            let i = choose|i: int| 0 <= i < items.len() && !(items[i]@ is Text);
            assert(shapes(items)[i] == items[i]@);
        },
        Value::Tuple(items) => {
            let i = choose|i: int| 0 <= i < items.len() && !(items[i]@ is Text);
            assert(shapes(items)[i] == items[i]@);
        },
        _ => {},
    }
}

/// Reads a state tuple; `None` where the value is none.
fn read_state(state: &Value) -> (read: Option<(Vec<String>, String)>)
    ensures
        match read {
            Some((brokers, topic)) => {
                &&& is_state(state@)
                &&& texts(brokers@) == restored(state@).brokers
                &&& topic@ == restored(state@).topic
            },
            None => !is_state(state@),
        },
{
    if let Value::Tuple(parts) = state {
        if parts.len() != 3 {
            return None;
        }
        proof {
            assert(state@->Tuple_0[0] == parts[0]@);
            assert(state@->Tuple_0[1] == parts[1]@);
            assert(state@->Tuple_0[2] == parts[2]@);
        }
        let tagged = match &parts[0] {
            Value::Text(tag) => *tag == String::from_str("KafkaOutputConfig"),
            _ => false,
        };
        if !tagged {
            return None;
        }
        let brokers = match &parts[1] {
            Value::List(items) => read_texts(items),
            Value::Tuple(items) => read_texts(items),
            _ => None,
        };
        match (brokers, &parts[2]) {
            (Some(brokers), Value::Text(topic)) => {
                if topic.as_str().is_empty() {
                    None
                } else {
                    Some((brokers, topic.clone()))
                }
            },
            (None, _) => {
                proof {
                    lemma_mixed_items_are_no_texts(parts[1]);
                }
                None
            },
            _ => None,
        }
    } else {
        None
    }
}

impl KafkaOutputConfig {
    #[verifier::type_invariant]
    spec fn names_a_topic(self) -> bool {
        self.topic@.len() > 0
    }

    /// Makes a configuration from the brokers and the topic that the user
    /// gave. An empty topic is refused.
    pub fn new(brokers: Vec<String>, topic: String) -> (made: Result<KafkaOutputConfig, SinkError>)
        ensures
            match made {
                Ok(config) => {
                    &&& topic@.len() > 0
                    &&& config@ == (ConfigView { brokers: texts(brokers@), topic: topic@ })
                },
                Err(e) => {
                    &&& topic@.len() == 0
                    &&& e matches SinkError::InvalidConfig { detail }
                    &&& detail@ == "topic must not be empty"@
                },
            },
    {
        if topic.as_str().is_empty() {
            Err(SinkError::InvalidConfig { detail: String::from_str("topic must not be empty") })
        } else {
            Ok(KafkaOutputConfig { brokers, topic })
        }
    }

    /// The `host:port` strings of the brokers, in order.
    pub fn brokers(&self) -> (brokers: &Vec<String>)
        ensures
            texts(brokers@) == self@.brokers,
    {
        &self.brokers
    }

    /// The topic that records are sent to. It is not empty.
    pub fn topic(&self) -> (topic: &String)
        ensures
            topic@ == self@.topic,
            topic@.len() > 0,
    {
        proof {
            use_type_invariant(self);
        }
        &self.topic
    }

    /// The state tuple that carries this configuration to another process:
    /// the type tag, the list of brokers and the topic.
    pub fn __getstate__(&self) -> (state: Value)
        ensures
            state@ == state_of(self@),
            is_state(state@),
    {
        proof {
            use_type_invariant(self);
        }
        let mut listed: Vec<Value> = Vec::new();
        let mut i: usize = 0;
        while i < self.brokers.len()
            invariant
                i <= self.brokers.len(),
                listed@.len() == i,
                forall|k: int| 0 <= k < i ==> (#[trigger] listed@[k])@ == Shape::Text(self.brokers@[k]@),
            decreases self.brokers.len() - i,
        {
            listed.push(Value::Text(self.brokers[i].clone()));
            i += 1;
        }
        let mut parts: Vec<Value> = Vec::new();
        parts.push(Value::Text(String::from_str("KafkaOutputConfig")));
        parts.push(Value::List(listed));
        parts.push(Value::Text(self.topic.clone()));
        let state = Value::Tuple(parts);
        proof {
            assert(shapes(listed) =~= text_shapes(self@.brokers));
            assert(parts[0]@ == Shape::Text(type_tag()));
            assert(parts[1]@ == Shape::List(text_shapes(self@.brokers)));
            assert(parts[2]@ == Shape::Text(self@.topic));
            assert(shapes(parts) =~= state_of(self@)->Tuple_0);
            lemma_state_round_trip(self@);
        }
        state
    }

    /// The arguments of a placeholder: no brokers and a sentinel topic.
    ///
    /// A framework that restores a configuration in two steps first makes
    /// one with [`KafkaOutputConfig::new`] from these arguments and then
    /// calls [`KafkaOutputConfig::__setstate__`] on it. The placeholder only
    /// waits for its state: never build a sink from it.
    pub fn __getnewargs__(&self) -> (args: (Vec<String>, &'static str))
        ensures
            args.0@.len() == 0,
            args.1@ == placeholder_topic(),
            args.1@.len() > 0,
    {
        proof {
            reveal_strlit("UNINIT_PICKLED_STRING");
        }
        (Vec::new(), "UNINIT_PICKLED_STRING")
    }

    /// Restores the configuration that a state tuple carries.
    ///
    /// The tuple is read as [`KafkaOutputConfig::__getstate__`] wrote it.
    /// Any other value, a tuple with another tag among them, is refused and
    /// leaves this configuration as it was.
    pub fn __setstate__(&mut self, state: &Value) -> (outcome: Result<(), SinkError>)
        ensures
            match outcome {
                Ok(()) => is_state(state@) && final(self)@ == restored(state@),
                Err(e) => {
                    &&& !is_state(state@)
                    &&& final(self)@ == old(self)@
                    &&& e matches SinkError::InvalidConfig { detail }
                    &&& detail@ == bad_state_detail(state@)
                },
            },
            !has_type_tag(state@) ==> outcome is Err,
    {
        match read_state(state) {
            Some((brokers, topic)) => {
                *self = KafkaOutputConfig { brokers, topic };
                Ok(())
            },
            None => {
                let mut detail = String::from_str("bad pickle contents for KafkaOutputConfig: ");
                detail.append(render(state).as_str());
                Err(SinkError::InvalidConfig { detail })
            },
        }
    }
}

/// A configuration that is written to its state tuple and read back is the
/// same configuration.
pub proof fn lemma_state_round_trip(config: ConfigView)
    requires
        config.topic.len() > 0,
    ensures
        is_state(state_of(config)),
        restored(state_of(config)) == config,
{
    let parts = state_of(config)->Tuple_0;
    assert(parts[1] == Shape::List(text_shapes(config.brokers)));
    assert(texts_in(parts[1]) =~= config.brokers);
}

/// A value that is no tuple, or a tuple whose first item is not the type
/// tag, is the state of no configuration.
pub proof fn lemma_wrong_tag_is_no_state(state: Shape)
    requires
        !has_type_tag(state),
    ensures
        !is_state(state),
{
}

} // verus!
