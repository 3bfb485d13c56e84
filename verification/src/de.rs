//! The deserialization engine: a cursor over a configuration tree that
//! answers type-directed decode requests.
//!
//! The engine keeps a stack of context frames. A frame is either "positioned
//! at a struct-like node" or "positioned at one scalar inside a value list".
//! A driver (the generic build process for the target shape) asks the engine
//! to read the current frame as a boolean, a number, a string, a character,
//! an identifier, a sequence or a struct; the iterator types hand the driver
//! one field or one element at a time, pushing a frame on their first step,
//! replacing it on later steps, and popping it when they are exhausted.

use vstd::prelude::*;
use vstd::slice::{slice_index_get, slice_subrange};
use vstd::string::StrSliceExecFns;
use crate::config::{ConfigItem, ConfigValue};

verus! {

/// Everything that can go wrong while decoding, reported once, at the first
/// failure met in traversal order.
#[derive(Debug, Clone, PartialEq)]
pub enum DeError {
    /// A decode request arrived while the context stack was empty.
    NoMoreValuesLeft,
    /// The build process itself reported a semantic error.
    SerdeError(String),
    /// A scalar request found zero or more than one value on the node.
    ExpectSingleValue,
    /// The scalar under the cursor is not a string.
    ExpectString,
    /// A character was requested but the string's length is not one; the
    /// offending string rides along.
    ExpectChar(String),
    /// The scalar under the cursor is not a boolean.
    ExpectBoolean,
    /// The scalar under the cursor is not a number.
    ExpectNumber,
    /// A struct or sequence was requested where the frame cannot supply one.
    ExpectStruct,
    /// An open-ended, self-describing decode was requested; the engine only
    /// serves statically known target shapes.
    DataTypeNotSupported,
}

/// The single error value a failed decode surfaces.
#[derive(Debug, Clone, PartialEq)]
pub struct Error(pub DeError);

/// One context frame: where the next build step reads from.
#[derive(Debug, Clone, Copy)]
pub enum DeType<'a> {
    /// Positioned at a struct-like node.
    Struct(&'a ConfigItem),
    /// Positioned at exactly one scalar of a value list.
    Sequence(&'a ConfigValue),
}

/// What a frame points at, by value: the mathematical face of [`DeType`],
/// free of references, which the contracts speak of.
pub enum FrameView {
    Struct(ConfigItem),
    Sequence(ConfigValue),
}

impl<'a> View for DeType<'a> {
    type V = FrameView;

    open spec fn view(&self) -> FrameView {
        match *self {
            DeType::Struct(item) => FrameView::Struct(*item),
            DeType::Sequence(v) => FrameView::Sequence(*v),
        }
    }
}

/// The engine: borrows the top-level nodes for its whole life, owns the frame
/// stack, and remembers whether the very first struct request is still owed
/// the top-level slice itself.
pub struct Deserializer<'a> {
    pub input: &'a [ConfigItem],
    pub depth: Vec<DeType<'a>>,
    pub root: bool,
}

/// The field name a struct-positioned node decodes under.
///
/// A node with no children and no values is named by its own key, and so is a
/// node that has only one of the two. A node with both (a named block) is
/// named by its first value if that value is a string; a non-string first
/// value is refused. The block-type key of a named block is never the name.
pub open spec fn identifier_of(item: ConfigItem) -> Result<Seq<char>, Error> {
    if item.children@.len() == 0 || item.values@.len() == 0 {
        Ok(item.key@)
    } else {
        match item.values@[0] {
            ConfigValue::String(s) => Ok(s@),
            _ => Err(Error(DeError::ExpectString)),
        }
    }
}

/// The frame a stack answers the next request from.
pub open spec fn current_of(frames: Seq<FrameView>) -> Result<FrameView, Error> {
    if frames.len() == 0 {
        Err(Error(DeError::NoMoreValuesLeft))
    } else {
        Ok(frames.last())
    }
}

/// Single-value resolution: a struct frame must hold exactly one scalar on
/// its node; a sequence frame already is one scalar.
pub open spec fn single_value_of(frames: Seq<FrameView>) -> Result<ConfigValue, Error> {
    match current_of(frames) {
        Ok(FrameView::Struct(item)) => {
            if item.values@.len() != 1 {
                Err(Error(DeError::ExpectSingleValue))
            } else {
                Ok(item.values@[0])
            }
        },
        Ok(FrameView::Sequence(v)) => Ok(v),
        Err(e) => Err(e),
    }
}

/// What decoding the current frame as a boolean returns.
pub open spec fn bool_of(frames: Seq<FrameView>) -> Result<bool, Error> {
    match single_value_of(frames) {
        Ok(ConfigValue::Boolean(b)) => Ok(b),
        Ok(_) => Err(Error(DeError::ExpectBoolean)),
        Err(e) => Err(e),
    }
}

/// What decoding the current frame as a number returns: the bit pattern of
/// the scalar's 64-bit value, unchanged.
pub open spec fn number_of(frames: Seq<FrameView>) -> Result<u64, Error> {
    match single_value_of(frames) {
        Ok(ConfigValue::Number(n)) => Ok(n),
        Ok(_) => Err(Error(DeError::ExpectNumber)),
        Err(e) => Err(e),
    }
}

/// What decoding the current frame as a string returns, as the sequence of
/// its characters.
pub open spec fn string_of(frames: Seq<FrameView>) -> Result<Seq<char>, Error> {
    match single_value_of(frames) {
        Ok(ConfigValue::String(s)) => Ok(s@),
        Ok(_) => Err(Error(DeError::ExpectString)),
        Err(e) => Err(e),
    }
}

/// What decoding the current frame as an identifier returns: only a struct
/// frame has a name, found by [`identifier_of`].
pub open spec fn identifier_of_frames(frames: Seq<FrameView>) -> Result<Seq<char>, Error> {
    match current_of(frames) {
        Ok(FrameView::Struct(item)) => identifier_of(item),
        Ok(FrameView::Sequence(_)) => Err(Error(DeError::ExpectStruct)),
        Err(e) => Err(e),
    }
}

impl<'a> Deserializer<'a> {
    /// The frame stack, by value, bottom first.
    pub open spec fn frames(self) -> Seq<FrameView> {
        self.depth@.map_values(|f: DeType<'a>| f@)
    }

    /// The frame the next request is answered from.
    pub open spec fn spec_current(self) -> Result<FrameView, Error> {
        current_of(self.frames())
    }

    /// The one scalar the current frame resolves to.
    pub open spec fn spec_single_value(self) -> Result<ConfigValue, Error> {
        single_value_of(self.frames())
    }

    /// What decoding the current frame as a boolean returns.
    pub open spec fn spec_bool(self) -> Result<bool, Error> {
        bool_of(self.frames())
    }

    /// What decoding the current frame as a number returns.
    pub open spec fn spec_number(self) -> Result<u64, Error> {
        number_of(self.frames())
    }

    /// What decoding the current frame as a string returns.
    pub open spec fn spec_string(self) -> Result<Seq<char>, Error> {
        string_of(self.frames())
    }

    /// What decoding the current frame as an identifier returns.
    pub open spec fn spec_identifier(self) -> Result<Seq<char>, Error> {
        identifier_of_frames(self.frames())
    }

    /// A fresh engine over `input`: empty stack, root request still owed.
    pub fn from_collectd(input: &'a [ConfigItem]) -> (de: Self)
        ensures
            de.input@ == input@,
            de.frames() == Seq::<FrameView>::empty(),
            de.root,
    {
        let de = Deserializer { input, depth: Vec::new(), root: true };
        proof {
            assert(de.frames() =~= Seq::<FrameView>::empty());
        }
        de
    }

    /// The top frame, or `NoMoreValuesLeft` on an empty stack.
    pub fn current(&self) -> (r: Result<DeType<'a>, Error>)
        ensures
            match r {
                Ok(f) => self.spec_current() == Ok::<FrameView, Error>(f@),
                Err(e) => self.spec_current() == Err::<FrameView, Error>(e),
            },
    {
        if self.depth.len() == 0 {
            return Err(Error(DeError::NoMoreValuesLeft));
        }
        Ok(self.depth[self.depth.len() - 1])
    }

    /// The one scalar the current frame resolves to.
    pub fn grab_val(&self) -> (r: Result<&'a ConfigValue, Error>)
        ensures
            match r {
                Ok(v) => self.spec_single_value() == Ok::<ConfigValue, Error>(*v),
                Err(e) => self.spec_single_value() == Err::<ConfigValue, Error>(e),
            },
    {
        match self.current() {
            Err(e) => Err(e),
            Ok(DeType::Struct(item)) => {
                if item.values.len() != 1 {
                    Err(Error(DeError::ExpectSingleValue))
                } else {
                    Ok(&item.values[0])
                }
            },
            Ok(DeType::Sequence(v)) => Ok(v),
        }
    }

    /// The current scalar as a borrowed string: no copy is made.
    pub fn grab_string(&self) -> (r: Result<&'a str, Error>)
        ensures
            match r {
                Ok(s) => self.spec_string() == Ok::<Seq<char>, Error>(s@),
                Err(e) => self.spec_string() == Err::<Seq<char>, Error>(e),
            },
    {
        match self.grab_val() {
            Err(e) => Err(e),
            Ok(ConfigValue::String(s)) => Ok(s.as_str()),
            Ok(_) => Err(Error(DeError::ExpectString)),
        }
    }

    /// The current scalar as a boolean.
    pub fn grab_bool(&self) -> (r: Result<bool, Error>)
        ensures
            r == self.spec_bool(),
    {
        match self.grab_val() {
            Err(e) => Err(e),
            Ok(ConfigValue::Boolean(b)) => Ok(*b),
            Ok(_) => Err(Error(DeError::ExpectBoolean)),
        }
    }

    /// The current scalar as a number, handed on as the bit pattern of the
    /// 64-bit value the host parsed. The caller narrows it to the width the
    /// target asks for; no range check is owed or performed.
    pub fn grab_number(&self) -> (r: Result<u64, Error>)
        ensures
            r == self.spec_number(),
    {
        match self.grab_val() {
            Err(e) => Err(e),
            Ok(ConfigValue::Number(n)) => Ok(*n),
            Ok(_) => Err(Error(DeError::ExpectNumber)),
        }
    }

    /// The current scalar as a character: a string of exactly one character.
    /// Any other length fails with `ExpectChar` carrying the string it saw.
    pub fn grab_char(&self) -> (r: Result<char, Error>)
        ensures
            match self.spec_string() {
                Ok(s) => {
                    if s.len() == 1 {
                        r == Ok::<char, Error>(s[0])
                    } else {
                        r matches Err(Error(DeError::ExpectChar(t))) && t@ == s
                    }
                },
                Err(e) => r == Err::<char, Error>(e),
            },
    {
        match self.grab_string() {
            Err(e) => Err(e),
            Ok(s) => {
                if s.unicode_len() != 1 {
                    Err(Error(DeError::ExpectChar(s.to_owned())))
                } else {
                    Ok(s.get_char(0))
                }
            },
        }
    }

    /// The name the current frame decodes under when it is a struct field.
    /// Sequence frames have no name, and the borrowed result is zero-copy.
    pub fn deserialize_identifier(&self) -> (r: Result<&'a str, Error>)
        ensures
            match r {
                Ok(s) => self.spec_identifier() == Ok::<Seq<char>, Error>(s@),
                Err(e) => self.spec_identifier() == Err::<Seq<char>, Error>(e),
            },
    {
        match self.current() {
            Err(e) => Err(e),
            Ok(DeType::Sequence(_)) => Err(Error(DeError::ExpectStruct)),
            Ok(DeType::Struct(item)) => {
                if item.children.len() == 0 || item.values.len() == 0 {
                    Ok(item.key.as_str())
                } else {
                    match &item.values[0] {
                        ConfigValue::String(s) => Ok(s.as_str()),
                        _ => Err(Error(DeError::ExpectString)),
                    }
                }
            },
        }
    }

    /// An open-ended, self-describing decode: never served.
    pub fn deserialize_any(&self) -> (r: Result<(), Error>)
        ensures
            r == Err::<(), Error>(Error(DeError::DataTypeNotSupported)),
    {
        Err(Error(DeError::DataTypeNotSupported))
    }

    /// A sequence read of the current frame: only a struct frame can supply
    /// one, and its elements are the node's scalar values, in order. A
    /// sequence frame cannot be read as a sequence again, so a value list
    /// never nests.
    pub fn deserialize_seq(&self) -> (r: Result<SeqSeparated<'a>, Error>)
        ensures
            match self.spec_current() {
                Ok(FrameView::Struct(item)) => {
                    r matches Ok(c) && c.values@ == item.values@ && c.first
                },
                Ok(FrameView::Sequence(_)) => r == Err::<SeqSeparated<'a>, Error>(
                    Error(DeError::ExpectStruct),
                ),
                Err(e) => r == Err::<SeqSeparated<'a>, Error>(e),
            },
    {
        match self.current() {
            Err(e) => Err(e),
            Ok(DeType::Struct(item)) => Ok(SeqSeparated::new(item.values.as_slice())),
            Ok(DeType::Sequence(_)) => Err(Error(DeError::ExpectStruct)),
        }
    }

    /// A struct read: the very first one consumes the top-level slice itself
    /// as the field list and clears the root flag; every later one reads the
    /// current struct frame's children. Only the flag ever changes.
    pub fn deserialize_struct(&mut self) -> (r: Result<FieldSeparated<'a>, Error>)
        ensures
            final(self).input@ == old(self).input@,
            final(self).frames() == old(self).frames(),
            !final(self).root,
            old(self).root ==> (r matches Ok(c) && c.items@ == old(self).input@ && c.first),
            !old(self).root ==> match old(self).spec_current() {
                Ok(FrameView::Struct(item)) => {
                    r matches Ok(c) && c.items@ == item.children@ && c.first
                },
                Ok(FrameView::Sequence(_)) => r == Err::<FieldSeparated<'a>, Error>(
                    Error(DeError::ExpectStruct),
                ),
                Err(e) => r == Err::<FieldSeparated<'a>, Error>(e),
            },
    {
        if self.root {
            self.root = false;
            Ok(FieldSeparated::new(self.input))
        } else {
            match self.current() {
                Err(e) => Err(e),
                Ok(DeType::Struct(item)) => Ok(FieldSeparated::new(item.children.as_slice())),
                Ok(DeType::Sequence(_)) => Err(Error(DeError::ExpectStruct)),
            }
        }
    }
}

/// The field iterator: walks a node slice left to right, positioning the
/// engine at one node per step. The first step pushes a struct frame, later
/// steps replace it, and exhaustion pops it, so one cursor costs one stack
/// level for as long as it runs.
pub struct FieldSeparated<'a> {
    pub items: &'a [ConfigItem],
    pub first: bool,
}

impl<'a> FieldSeparated<'a> {
    fn new(items: &'a [ConfigItem]) -> (c: Self)
        ensures
            c.items@ == items@,
            c.first,
    {
        FieldSeparated { items, first: true }
    }

    /// One step: position the engine at the next node and hand back the
    /// field name that node decodes under, or `None` when the slice is
    /// exhausted. A name the target does not recognize costs nothing to
    /// skip: the next step replaces the frame whether or not the driver
    /// read a value from it.
    pub fn next_key(&mut self, de: &mut Deserializer<'a>) -> (r: Result<Option<&'a str>, Error>)
        ensures
            final(de).input@ == old(de).input@,
            final(de).root == old(de).root,
            old(self).items@.len() == 0 ==> {
                &&& final(self).items@ == old(self).items@
                &&& final(self).first == old(self).first
                &&& r == Ok::<Option<&'a str>, Error>(None)
                &&& final(de).frames() == (if !old(self).first && old(de).frames().len() > 0 {
                    old(de).frames().drop_last()
                } else {
                    old(de).frames()
                })
            },
            old(self).items@.len() > 0 ==> {
                &&& final(self).items@ == old(self).items@.drop_first()
                &&& !final(self).first
                &&& final(de).frames() == (if old(self).first || old(de).frames().len() == 0 {
                    old(de).frames().push(FrameView::Struct(old(self).items@[0]))
                } else {
                    old(de).frames().update(
                        old(de).frames().len() - 1,
                        FrameView::Struct(old(self).items@[0]),
                    )
                })
                &&& match identifier_of(old(self).items@[0]) {
                    Ok(id) => r matches Ok(Some(s)) && s@ == id,
                    Err(e) => r == Err::<Option<&'a str>, Error>(e),
                }
            },
    {
        if self.items.len() == 0 {
            if !self.first && de.depth.len() > 0 {
                de.depth.pop();
                proof {
                    assert(de.frames() =~= old(de).frames().drop_last());
                }
            }
            return Ok(None);
        }

        let item: &'a ConfigItem = slice_index_get(self.items, 0);
        if self.first || de.depth.len() == 0 {
            de.depth.push(DeType::Struct(item));
            self.first = false;
            proof {
                assert(de.frames() =~= old(de).frames().push(FrameView::Struct(*item)));
            }
        } else {
            let ind = de.depth.len() - 1;
            de.depth[ind] = DeType::Struct(item);
            proof {
                assert(de.frames() =~= old(de).frames().update(
                    old(de).frames().len() - 1,
                    FrameView::Struct(*item),
                ));
            }
        }

        self.items = slice_subrange(self.items, 1, self.items.len());
        match de.deserialize_identifier() {
            Ok(s) => Ok(Some(s)),
            Err(e) => Err(e),
        }
    }
}

/// The element iterator: walks a scalar slice left to right with the same
/// push-once, replace-thereafter, pop-at-end discipline as the field
/// iterator, but with sequence frames, so each step positions the engine at
/// exactly one scalar.
pub struct SeqSeparated<'a> {
    pub values: &'a [ConfigValue],
    pub first: bool,
}

impl<'a> SeqSeparated<'a> {
    fn new(values: &'a [ConfigValue]) -> (c: Self)
        ensures
            c.values@ == values@,
            c.first,
    {
        SeqSeparated { values, first: true }
    }

    /// One step: position the engine at the next scalar. `true` says an
    /// element is ready under the cursor; `false` says the list is exhausted
    /// and the cursor's frame, if it ever pushed one, is gone.
    pub fn next_element(&mut self, de: &mut Deserializer<'a>) -> (more: bool)
        ensures
            final(de).input@ == old(de).input@,
            final(de).root == old(de).root,
            old(self).values@.len() == 0 ==> {
                &&& !more
                &&& final(self).values@ == old(self).values@
                &&& final(self).first == old(self).first
                &&& final(de).frames() == (if !old(self).first && old(de).frames().len() > 0 {
                    old(de).frames().drop_last()
                } else {
                    old(de).frames()
                })
            },
            old(self).values@.len() > 0 ==> {
                &&& more
                &&& final(self).values@ == old(self).values@.drop_first()
                &&& !final(self).first
                &&& final(de).frames() == (if old(self).first || old(de).frames().len() == 0 {
                    old(de).frames().push(FrameView::Sequence(old(self).values@[0]))
                } else {
                    old(de).frames().update(
                        old(de).frames().len() - 1,
                        FrameView::Sequence(old(self).values@[0]),
                    )
                })
            },
    {
        if self.values.len() == 0 {
            if !self.first && de.depth.len() > 0 {
                de.depth.pop();
                proof {
                    assert(de.frames() =~= old(de).frames().drop_last());
                }
            }
            return false;
        }

        let v: &'a ConfigValue = slice_index_get(self.values, 0);
        if self.first || de.depth.len() == 0 {
            de.depth.push(DeType::Sequence(v));
            self.first = false;
            proof {
                assert(de.frames() =~= old(de).frames().push(FrameView::Sequence(*v)));
            }
        } else {
            let ind = de.depth.len() - 1;
            de.depth[ind] = DeType::Sequence(v);
            proof {
                assert(de.frames() =~= old(de).frames().update(
                    old(de).frames().len() - 1,
                    FrameView::Sequence(*v),
                ));
            }
        }

        self.values = slice_subrange(self.values, 1, self.values.len());
        true
    }
}

} // verus!
