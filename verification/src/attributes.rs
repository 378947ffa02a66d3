//! The recognized configuration options of the association generator.
//!
//! A declaration handed to the generator may carry configuration
//! attributes. Exactly one option is recognized: `crate`, which chooses an
//! alternate location to import the library from, written either bare
//! (meaning the enclosing crate itself) or as `crate = path`. Anything else
//! is a build-time diagnostic.
//!
//! The textual front end that splits an attribute into its option items is
//! an outside collaborator; this module receives the items as plain values
//! and decides what they mean.

use vstd::prelude::*;

use crate::diagnostic::Diagnostic;

verus! {

/// The form a configuration option's value takes.
#[derive(Debug)]
pub enum MetaValue {
    /// The option stands alone, with no value.
    Bare,
    /// The option is assigned a path, as in `crate = my::path`.
    Assign(String),
    /// The option is followed by tokens in neither of the two forms above.
    Malformed,
}

/// One option of a configuration attribute, already split into its name and
/// the form of its value.
#[derive(Debug)]
pub struct MetaItem {
    /// The option's name.
    pub name: String,
    /// The option's value.
    pub value: MetaValue,
}

/// One attribute of a declaration, already split into its path and its
/// option items.
#[derive(Debug)]
pub struct AttrDef {
    /// Whether this is an outer attribute; only outer attributes are read.
    pub outer: bool,
    /// The attribute's path text.
    pub path: String,
    /// The options in the attribute's list.
    pub items: Vec<MetaItem>,
}

/// The recognized options, as recorded while reading a declaration's
/// attributes.
#[derive(Debug)]
pub struct Attributes {
    /// The alternate location to import the library from, if one was given.
    pub crate_path: Option<String>,
}

/// What one option does to the recorded alternate location: `crate = path`
/// or a bare `crate` records the location once, a second one is a
/// diagnostic, a malformed value is a diagnostic, and any other option name
/// is a diagnostic.
pub open spec fn apply_meta(path: Option<Seq<char>>, item: MetaItem) -> Result<
    Option<Seq<char>>,
    Diagnostic,
> {
    if item.name@ != "crate"@ {
        Err(Diagnostic::UnrecognizedOption)
    } else {
        match item.value {
            MetaValue::Assign(p) => if path is None {
                Ok(Some(p@))
            } else {
                Err(Diagnostic::AlreadySpecified)
            },
            MetaValue::Bare => if path is None {
                Ok(Some("crate"@))
            } else {
                Err(Diagnostic::AlreadySpecified)
            },
            MetaValue::Malformed => Err(Diagnostic::ExpectedCrateArg),
        }
    }
}

/// [`apply_meta`], folded over a run of option items; the first diagnostic
/// stops the run.
pub open spec fn apply_items(path: Option<Seq<char>>, items: Seq<MetaItem>) -> Result<
    Option<Seq<char>>,
    Diagnostic,
>
    decreases items.len(),
{
    if items.len() == 0 {
        Ok(path)
    } else {
        match apply_meta(path, items[0]) {
            Ok(p) => apply_items(p, items.subrange(1, items.len() as int)),
            Err(e) => Err(e),
        }
    }
}

/// Whether an attribute is read at all: it must be an outer attribute with
/// the library's own path.
pub open spec fn relevant(attr: AttrDef) -> bool {
    attr.outer && attr.path@ == "ptr_meta"@
}

/// [`apply_items`], folded over a declaration's attributes; attributes that
/// are not the library's are passed over, and the first diagnostic stops the
/// run.
pub open spec fn apply_attrs(path: Option<Seq<char>>, attrs: Seq<AttrDef>) -> Result<
    Option<Seq<char>>,
    Diagnostic,
>
    decreases attrs.len(),
{
    if attrs.len() == 0 {
        Ok(path)
    } else if relevant(attrs[0]) {
        match apply_items(path, attrs[0].items@) {
            Ok(p) => apply_attrs(p, attrs.subrange(1, attrs.len() as int)),
            Err(e) => Err(e),
        }
    } else {
        apply_attrs(path, attrs.subrange(1, attrs.len() as int))
    }
}

/// What reading a declaration's attributes yields: the recorded alternate
/// location, or the first diagnostic.
pub open spec fn parse_spec(attrs: Seq<AttrDef>) -> Result<Option<Seq<char>>, Diagnostic> {
    apply_attrs(None, attrs)
}

/// Continuing [`apply_attrs`] after the items of one attribute: a diagnostic
/// from the items is final, otherwise the remaining attributes are read.
pub open spec fn after_items(
    from_items: Result<Option<Seq<char>>, Diagnostic>,
    rest: Seq<AttrDef>,
) -> Result<Option<Seq<char>>, Diagnostic> {
    match from_items {
        Ok(p) => apply_attrs(p, rest),
        Err(e) => Err(e),
    }
}

/// Unfolds [`apply_items`] at position `i` of a longer run.
proof fn lemma_apply_items_unfold(path: Option<Seq<char>>, items: Seq<MetaItem>, i: int)
    requires
        0 <= i < items.len(),
    ensures
        apply_items(path, items.subrange(i, items.len() as int)) == match apply_meta(
            path,
            items[i],
        ) {
            Ok(p) => apply_items(p, items.subrange(i + 1, items.len() as int)),
            Err(e) => Err(e),
        },
{
    let s = items.subrange(i, items.len() as int);
    assert(s[0] == items[i]);
    assert(s.subrange(1, s.len() as int) =~= items.subrange(i + 1, items.len() as int));
}

/// Unfolds [`apply_attrs`] at position `i` of a longer run.
proof fn lemma_apply_attrs_unfold(path: Option<Seq<char>>, attrs: Seq<AttrDef>, i: int)
    requires
        0 <= i < attrs.len(),
    ensures
        apply_attrs(path, attrs.subrange(i, attrs.len() as int)) == if relevant(attrs[i]) {
            after_items(
                apply_items(path, attrs[i].items@),
                attrs.subrange(i + 1, attrs.len() as int),
            )
        } else {
            apply_attrs(path, attrs.subrange(i + 1, attrs.len() as int))
        },
{
    let s = attrs.subrange(i, attrs.len() as int);
    assert(s[0] == attrs[i]);
    assert(s.subrange(1, s.len() as int) =~= attrs.subrange(i + 1, attrs.len() as int));
}

/// Records a value for an option that may be given at most once: the first
/// value is kept, a second one is a diagnostic and leaves the first in
/// place.
pub fn try_set_attribute<T>(attribute: &mut Option<T>, value: T) -> (r: Result<(), Diagnostic>)
    ensures
        (*old(attribute)) is None ==> *final(attribute) == Some(value) && r is Ok,
        (*old(attribute)) is Some ==> *final(attribute) == *old(attribute) && r == Err::<
            (),
            Diagnostic,
        >(Diagnostic::AlreadySpecified),
{
    if attribute.is_none() {
        *attribute = Some(value);
        Ok(())
    } else {
        Err(Diagnostic::AlreadySpecified)
    }
}

impl Attributes {
    /// The recorded alternate location, as text.
    pub open spec fn path_view(&self) -> Option<Seq<char>> {
        match self.crate_path {
            Some(p) => Some(p@),
            None => None,
        }
    }

    /// The location the library is imported from: the recorded alternate
    /// location if one was given, the default `::ptr_meta` otherwise.
    pub open spec fn crate_path_spec(&self) -> Seq<char> {
        match self.crate_path {
            Some(p) => p@,
            None => "::ptr_meta"@,
        }
    }

    /// Reads one option item into the recorded options.
    pub fn parse_meta(&mut self, item: &MetaItem) -> (r: Result<(), Diagnostic>)
        ensures
            match apply_meta(old(self).path_view(), *item) {
                Ok(p) => final(self).path_view() == p && r is Ok,
                Err(e) => *final(self) == *old(self) && r == Err::<(), Diagnostic>(e),
            },
    {
        let crate_word: String = "crate".to_owned();
        if item.name == crate_word {
            match &item.value {
                MetaValue::Assign(p) => try_set_attribute(&mut self.crate_path, p.clone()),
                MetaValue::Bare => try_set_attribute(&mut self.crate_path, crate_word),
                MetaValue::Malformed => Err(Diagnostic::ExpectedCrateArg),
            }
        } else {
            Err(Diagnostic::UnrecognizedOption)
        }
    }

    /// Reads a declaration's attributes: every outer attribute with the
    /// library's path contributes its option items, in order, and the first
    /// diagnostic stops the reading.
    pub fn parse(attrs: &Vec<AttrDef>) -> (r: Result<Attributes, Diagnostic>)
        ensures
            match parse_spec(attrs@) {
                Ok(p) => r matches Ok(a) && a.path_view() == p,
                Err(e) => r == Err::<Attributes, Diagnostic>(e),
            },
    {
        let ghost goal = parse_spec(attrs@);
        let mut result = Attributes { crate_path: None };
        proof {
            assert(attrs@.subrange(0, attrs@.len() as int) =~= attrs@);
        }
        let n = attrs.len();
        let mut i: usize = 0;
        while i < n
            invariant
                i <= n,
                n == attrs@.len(),
                goal == parse_spec(attrs@),
                apply_attrs(result.path_view(), attrs@.subrange(i as int, n as int)) == goal,
            decreases n - i,
        {
            proof {
                lemma_apply_attrs_unfold(result.path_view(), attrs@, i as int);
            }
            let attr = &attrs[i];
            let relevant_attr = attr.outer && attr.path == "ptr_meta".to_owned();
            if relevant_attr {
                let ghost rest = attrs@.subrange(i as int + 1, n as int);
                proof {
                    assert(attr.items@.subrange(0, attr.items@.len() as int) =~= attr.items@);
                }
                let m = attr.items.len();
                let mut j: usize = 0;
                while j < m
                    invariant
                        j <= m,
                        m == attr.items@.len(),
                        goal == parse_spec(attrs@),
                        after_items(
                            apply_items(
                                result.path_view(),
                                attr.items@.subrange(j as int, m as int),
                            ),
                            rest,
                        ) == goal,
                    decreases m - j,
                {
                    proof {
                        lemma_apply_items_unfold(result.path_view(), attr.items@, j as int);
                    }
                    let item = &attr.items[j];
                    match result.parse_meta(item) {
                        Ok(_) => {
                        },
                        Err(e) => {
                            return Err(e);
                        },
                    }
                    j = j + 1;
                }
            }
            i = i + 1;
        }
        Ok(result)
    }

    /// Returns the location to import the library from: the recorded
    /// alternate location, or the default `::ptr_meta`.
    pub fn crate_path(&self) -> (p: String)
        ensures
            p@ == self.crate_path_spec(),
    {
        match &self.crate_path {
            Some(p) => p.clone(),
            None => "::ptr_meta".to_owned(),
        }
    }
}

impl Default for Attributes {
    /// No options recorded yet.
    fn default() -> (r: Self)
        ensures
            r.crate_path is None,
    {
        Attributes { crate_path: None }
    }
}

} // verus!
