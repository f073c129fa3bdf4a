use vstd::prelude::*;
use crate::json::JsonMember;
use crate::json::JsonValue;
use crate::json::json_of;
use crate::json::lookup_str;
use crate::json::parse_json;
use crate::json::pairs_view;
use crate::json::spec_lookup;
use crate::json::spec_object_text;
use crate::json::spec_string_text;
use crate::json::append_object;
use crate::json::append_quoted;
use crate::json::lemma_lookup_push;
use crate::utils::is_hex_color;
use crate::utils::validate_hex;

verus! {

/// The palette of seed colors: one optional color per fixed semantic role.
/// Every present value is meant to be a `#`-prefixed six-digit hex color;
/// `PaletteView::wf` states that.
#[derive(Clone, Debug, PartialEq, Eq)]
pub struct Palette {
    pub primary: Option<String>,
    pub secondary: Option<String>,
    pub tertiary: Option<String>,
    pub accent1: Option<String>,
    pub accent2: Option<String>,
    pub neutral1: Option<String>,
    pub neutral2: Option<String>,
}

/// The mathematical shape of a palette: each role as a character sequence.
pub struct PaletteView {
    pub primary: Option<Seq<char>>,
    pub secondary: Option<Seq<char>>,
    pub tertiary: Option<Seq<char>>,
    pub accent1: Option<Seq<char>>,
    pub accent2: Option<Seq<char>>,
    pub neutral1: Option<Seq<char>>,
    pub neutral2: Option<Seq<char>>,
}

/// The view of one optional color.
pub open spec fn view_opt_str(o: Option<String>) -> Option<Seq<char>> {
    match o {
        Some(s) => Some(s@),
        None => None,
    }
}

impl View for Palette {
    type V = PaletteView;

    open spec fn view(&self) -> PaletteView {
        PaletteView {
            primary: view_opt_str(self.primary),
            secondary: view_opt_str(self.secondary),
            tertiary: view_opt_str(self.tertiary),
            accent1: view_opt_str(self.accent1),
            accent2: view_opt_str(self.accent2),
            neutral1: view_opt_str(self.neutral1),
            neutral2: view_opt_str(self.neutral2),
        }
    }
}

impl PaletteView {
    /// Every present role holds a well-formed hex color.
    pub open spec fn wf(self) -> bool {
        &&& (self.primary matches Some(s) ==> is_hex_color(s))
        &&& (self.secondary matches Some(s) ==> is_hex_color(s))
        &&& (self.tertiary matches Some(s) ==> is_hex_color(s))
        &&& (self.accent1 matches Some(s) ==> is_hex_color(s))
        &&& (self.accent2 matches Some(s) ==> is_hex_color(s))
        &&& (self.neutral1 matches Some(s) ==> is_hex_color(s))
        &&& (self.neutral2 matches Some(s) ==> is_hex_color(s))
    }

    /// No role is present at all.
    pub open spec fn is_empty(self) -> bool {
        &&& self.primary is None
        &&& self.secondary is None
        &&& self.tertiary is None
        &&& self.accent1 is None
        &&& self.accent2 is None
        &&& self.neutral1 is None
        &&& self.neutral2 is None
    }
}

/// A singleton or empty sequence out of one optional value.
pub open spec fn opt_val(o: Option<Seq<char>>) -> Seq<Seq<char>> {
    match o {
        Some(s) => seq![s],
        None => Seq::empty(),
    }
}

/// The present color values, in the alphabetical order of their role keys —
/// the order an ordered mapping serialized by role key would iterate in.
pub open spec fn spec_values(pv: PaletteView) -> Seq<Seq<char>> {
    opt_val(pv.accent1) + opt_val(pv.accent2) + opt_val(pv.neutral1) + opt_val(pv.neutral2)
        + opt_val(pv.primary) + opt_val(pv.secondary) + opt_val(pv.tertiary)
}

/// The color a JSON object carries for one role key: the first member under
/// that key, if its value is a string in valid hex color shape.
pub open spec fn spec_role_value(members: Seq<JsonMember>, key: Seq<char>) -> Option<Seq<char>> {
    match spec_lookup(members, key) {
        Some(JsonValue::Str(s)) => if is_hex_color(s@) {
            Some(s@)
        } else {
            None
        },
        _ => None,
    }
}

/// What a JSON document yields as a palette: for an object, each fixed role
/// key that holds a valid hex color string, all other keys ignored; absent
/// when the document is not an object or no role key survives validation.
pub open spec fn spec_palette_of(v: JsonValue) -> Option<PaletteView> {
    match v {
        JsonValue::Object(members) => {
            let pv = PaletteView {
                primary: spec_role_value(members@, "primary_hex"@),
                secondary: spec_role_value(members@, "secondary_hex"@),
                tertiary: spec_role_value(members@, "tertiary_hex"@),
                accent1: spec_role_value(members@, "accent1_hex"@),
                accent2: spec_role_value(members@, "accent2_hex"@),
                neutral1: spec_role_value(members@, "neutral1_hex"@),
                neutral2: spec_role_value(members@, "neutral2_hex"@),
            };
            if pv.is_empty() {
                None
            } else {
                Some(pv)
            }
        },
        _ => None,
    }
}

/// The view of an optional palette.
pub open spec fn palette_view_opt(r: Option<Palette>) -> Option<PaletteView> {
    match r {
        Some(p) => Some(p@),
        None => None,
    }
}

/// What parsing a piece of text as a palette yields: the JSON document's
/// palette, absent when the text is not valid JSON at all.
pub open spec fn spec_parse_palette(text: Seq<char>) -> Option<PaletteView> {
    match json_of(text) {
        None => None,
        Some(v) => spec_palette_of(v),
    }
}

fn role_value(members: &Vec<JsonMember>, key: &str) -> (r: Option<String>)
    ensures
        view_opt_str(r) == spec_role_value(members@, key@),
{
    match lookup_str(members, key) {
        Some(s) => {
            if validate_hex(s.as_str()) {
                Some(s)
            } else {
                None
            }
        },
        None => None,
    }
}

/// Extracts the palette a JSON document carries, if any.
pub fn palette_of_value(v: &JsonValue) -> (r: Option<Palette>)
    ensures
        palette_view_opt(r) == spec_palette_of(*v),
        r matches Some(p) ==> p@.wf() && !p@.is_empty(),
{
    match v {
        JsonValue::Object(members) => {
            let p = Palette {
                primary: role_value(members, "primary_hex"),
                secondary: role_value(members, "secondary_hex"),
                tertiary: role_value(members, "tertiary_hex"),
                accent1: role_value(members, "accent1_hex"),
                accent2: role_value(members, "accent2_hex"),
                neutral1: role_value(members, "neutral1_hex"),
                neutral2: role_value(members, "neutral2_hex"),
            };
            if p.is_empty() {
                None
            } else {
                Some(p)
            }
        },
        _ => None,
    }
}

/// Parses a piece of text as a palette. Total over all inputs: any text that
/// is not JSON, not an object, or an object with no valid role entry yields
/// `None`, never a failure.
pub fn parse_palette(text: &str) -> (r: Option<Palette>)
    ensures
        palette_view_opt(r) == spec_parse_palette(text@),
        r matches Some(p) ==> p@.wf() && !p@.is_empty(),
{
    match parse_json(text) {
        Some(v) => palette_of_value(&v),
        None => None,
    }
}

/// The seven role keys are pairwise distinct.
pub proof fn lemma_role_keys_distinct()
    ensures
        "primary_hex"@ != "secondary_hex"@,
        "primary_hex"@ != "tertiary_hex"@,
        "primary_hex"@ != "accent1_hex"@,
        "primary_hex"@ != "accent2_hex"@,
        "primary_hex"@ != "neutral1_hex"@,
        "primary_hex"@ != "neutral2_hex"@,
        "secondary_hex"@ != "tertiary_hex"@,
        "secondary_hex"@ != "accent1_hex"@,
        "secondary_hex"@ != "accent2_hex"@,
        "secondary_hex"@ != "neutral1_hex"@,
        "secondary_hex"@ != "neutral2_hex"@,
        "tertiary_hex"@ != "accent1_hex"@,
        "tertiary_hex"@ != "accent2_hex"@,
        "tertiary_hex"@ != "neutral1_hex"@,
        "tertiary_hex"@ != "neutral2_hex"@,
        "accent1_hex"@ != "accent2_hex"@,
        "accent1_hex"@ != "neutral1_hex"@,
        "accent1_hex"@ != "neutral2_hex"@,
        "accent2_hex"@ != "neutral1_hex"@,
        "accent2_hex"@ != "neutral2_hex"@,
        "neutral1_hex"@ != "neutral2_hex"@,
{
    reveal_strlit("primary_hex");
    reveal_strlit("secondary_hex");
    reveal_strlit("tertiary_hex");
    reveal_strlit("accent1_hex");
    reveal_strlit("accent2_hex");
    reveal_strlit("neutral1_hex");
    reveal_strlit("neutral2_hex");
    assert("primary_hex"@[0] == 'p' && "secondary_hex"@[0] == 's' && "tertiary_hex"@[0] == 't'
        && "accent1_hex"@[0] == 'a' && "accent2_hex"@[0] == 'a' && "neutral1_hex"@[0] == 'n'
        && "neutral2_hex"@[0] == 'n');
    assert("accent1_hex"@[6] == '1' && "accent2_hex"@[6] == '2');
    assert("neutral1_hex"@[7] == '1' && "neutral2_hex"@[7] == '2');
}

impl Palette {
    /// The palette with every role absent.
    pub fn new() -> (r: Palette)
        ensures
            r@.is_empty(),
    {
        Palette {
            primary: None,
            secondary: None,
            tertiary: None,
            accent1: None,
            accent2: None,
            neutral1: None,
            neutral2: None,
        }
    }

    /// Whether no role is present.
    pub fn is_empty(&self) -> (r: bool)
        ensures
            r == self@.is_empty(),
            r == (spec_values(self@).len() == 0),
    {
        self.primary.is_none() && self.secondary.is_none() && self.tertiary.is_none()
            && self.accent1.is_none() && self.accent2.is_none() && self.neutral1.is_none()
            && self.neutral2.is_none()
    }

    /// How many roles are present.
    pub fn len(&self) -> (r: usize)
        ensures
            r == spec_values(self@).len(),
    {
        let mut c: usize = 0;
        if self.accent1.is_some() {
            c = c + 1;
        }
        if self.accent2.is_some() {
            c = c + 1;
        }
        if self.neutral1.is_some() {
            c = c + 1;
        }
        if self.neutral2.is_some() {
            c = c + 1;
        }
        if self.primary.is_some() {
            c = c + 1;
        }
        if self.secondary.is_some() {
            c = c + 1;
        }
        if self.tertiary.is_some() {
            c = c + 1;
        }
        c
    }

    /// The present color values, in the alphabetical order of their role
    /// keys.
    pub fn values(&self) -> (r: Vec<String>)
        ensures
            r.deep_view() == spec_values(self@),
    {
        let mut out: Vec<String> = Vec::new();
        let ghost mut partial: Seq<Seq<char>> = Seq::empty();
        proof {
            assert(out.deep_view() =~= partial);
        }
        if let Some(s) = &self.accent1 {
            out.push(s.clone());
        }
        proof {
            partial = partial + opt_val(self@.accent1);
            assert(out.deep_view() =~= partial);
        }
        if let Some(s) = &self.accent2 {
            out.push(s.clone());
        }
        proof {
            partial = partial + opt_val(self@.accent2);
            assert(out.deep_view() =~= partial);
        }
        if let Some(s) = &self.neutral1 {
            out.push(s.clone());
        }
        proof {
            partial = partial + opt_val(self@.neutral1);
            assert(out.deep_view() =~= partial);
        }
        if let Some(s) = &self.neutral2 {
            out.push(s.clone());
        }
        proof {
            partial = partial + opt_val(self@.neutral2);
            assert(out.deep_view() =~= partial);
        }
        if let Some(s) = &self.primary {
            out.push(s.clone());
        }
        proof {
            partial = partial + opt_val(self@.primary);
            assert(out.deep_view() =~= partial);
        }
        if let Some(s) = &self.secondary {
            out.push(s.clone());
        }
        proof {
            partial = partial + opt_val(self@.secondary);
            assert(out.deep_view() =~= partial);
        }
        if let Some(s) = &self.tertiary {
            out.push(s.clone());
        }
        proof {
            partial = partial + opt_val(self@.tertiary);
            assert(out.deep_view() =~= partial);
            assert(partial =~= spec_values(self@));
        }
        out
    }

    /// Renders the palette back into a JSON document of the same shape the
    /// parser reads. Re-extracting a palette from the result gives back
    /// exactly this palette — the parse/serialize round trip, stated over
    /// every well-formed palette.
    pub fn to_json_value(&self) -> (r: JsonValue)
        requires
            self@.wf(),
        ensures
            spec_palette_of(r) == (if self@.is_empty() {
                None::<PaletteView>
            } else {
                Some(self@)
            }),
    {
        proof {
            lemma_role_keys_distinct();
        }
        let mut members: Vec<JsonMember> = Vec::new();
        if let Some(s) = &self.accent1 {
            let m = JsonMember { key: "accent1_hex".to_owned(), value: JsonValue::Str(s.clone()) };
            proof {
                lemma_lookup_push(members@, m);
            }
            members.push(m);
        }
        if let Some(s) = &self.accent2 {
            let m = JsonMember { key: "accent2_hex".to_owned(), value: JsonValue::Str(s.clone()) };
            proof {
                lemma_lookup_push(members@, m);
            }
            members.push(m);
        }
        if let Some(s) = &self.neutral1 {
            let m = JsonMember { key: "neutral1_hex".to_owned(), value: JsonValue::Str(s.clone()) };
            proof {
                lemma_lookup_push(members@, m);
            }
            members.push(m);
        }
        if let Some(s) = &self.neutral2 {
            let m = JsonMember { key: "neutral2_hex".to_owned(), value: JsonValue::Str(s.clone()) };
            proof {
                lemma_lookup_push(members@, m);
            }
            members.push(m);
        }
        if let Some(s) = &self.primary {
            let m = JsonMember { key: "primary_hex".to_owned(), value: JsonValue::Str(s.clone()) };
            proof {
                lemma_lookup_push(members@, m);
            }
            members.push(m);
        }
        if let Some(s) = &self.secondary {
            let m = JsonMember {
                key: "secondary_hex".to_owned(),
                value: JsonValue::Str(s.clone()),
            };
            proof {
                lemma_lookup_push(members@, m);
            }
            members.push(m);
        }
        if let Some(s) = &self.tertiary {
            let m = JsonMember { key: "tertiary_hex".to_owned(), value: JsonValue::Str(s.clone()) };
            proof {
                lemma_lookup_push(members@, m);
            }
            members.push(m);
        }
        JsonValue::Object(members)
    }

    /// The raw key and rendered value of each present role, in alphabetical
    /// key order.
    #[verifier::rlimit(60)]
    fn json_pairs(&self) -> (r: Vec<(String, String)>)
        ensures
            pairs_view(r@) == spec_palette_pairs(self@),
    {
        let mut pairs: Vec<(String, String)> = Vec::new();
        let ghost mut partial: Seq<(Seq<char>, Seq<char>)> = Seq::empty();
        proof {
            assert(pairs_view(pairs@) =~= partial);
        }
        if let Some(s) = &self.accent1 {
            let mut vs = String::new();
            append_quoted(&mut vs, s.as_str());
            pairs.push(("accent1_hex".to_owned(), vs));
        }
        proof {
            partial = partial + opt_pair("accent1_hex"@, self@.accent1);
            assert(pairs_view(pairs@) =~= partial);
        }
        if let Some(s) = &self.accent2 {
            let mut vs = String::new();
            append_quoted(&mut vs, s.as_str());
            pairs.push(("accent2_hex".to_owned(), vs));
        }
        proof {
            partial = partial + opt_pair("accent2_hex"@, self@.accent2);
            assert(pairs_view(pairs@) =~= partial);
        }
        if let Some(s) = &self.neutral1 {
            let mut vs = String::new();
            append_quoted(&mut vs, s.as_str());
            pairs.push(("neutral1_hex".to_owned(), vs));
        }
        proof {
            partial = partial + opt_pair("neutral1_hex"@, self@.neutral1);
            assert(pairs_view(pairs@) =~= partial);
        }
        if let Some(s) = &self.neutral2 {
            let mut vs = String::new();
            append_quoted(&mut vs, s.as_str());
            pairs.push(("neutral2_hex".to_owned(), vs));
        }
        proof {
            partial = partial + opt_pair("neutral2_hex"@, self@.neutral2);
            assert(pairs_view(pairs@) =~= partial);
        }
        if let Some(s) = &self.primary {
            let mut vs = String::new();
            append_quoted(&mut vs, s.as_str());
            pairs.push(("primary_hex".to_owned(), vs));
        }
        proof {
            partial = partial + opt_pair("primary_hex"@, self@.primary);
            assert(pairs_view(pairs@) =~= partial);
        }
        if let Some(s) = &self.secondary {
            let mut vs = String::new();
            append_quoted(&mut vs, s.as_str());
            pairs.push(("secondary_hex".to_owned(), vs));
        }
        proof {
            partial = partial + opt_pair("secondary_hex"@, self@.secondary);
            assert(pairs_view(pairs@) =~= partial);
        }
        if let Some(s) = &self.tertiary {
            let mut vs = String::new();
            append_quoted(&mut vs, s.as_str());
            pairs.push(("tertiary_hex".to_owned(), vs));
        }
        proof {
            partial = partial + opt_pair("tertiary_hex"@, self@.tertiary);
            assert(pairs_view(pairs@) =~= partial);
            assert(partial =~= spec_palette_pairs(self@));
        }
        pairs
    }

    /// Renders the palette as JSON text: an object with one member per
    /// present role, in alphabetical key order.
    pub fn palette_json(&self) -> (r: String)
        ensures
            r@ == spec_palette_json(self@),
    {
        let pairs = self.json_pairs();
        let mut out = String::new();
        append_object(&mut out, &pairs);
        out
    }

    /// Appends the palette's JSON text to `out`.
    pub fn append_palette_json(&self, out: &mut String)
        ensures
            final(out)@ == old(out)@ + spec_palette_json(self@),
    {
        let pairs = self.json_pairs();
        append_object(out, &pairs);
    }
}

/// A singleton or empty pair sequence for one role.
pub open spec fn opt_pair(key: Seq<char>, o: Option<Seq<char>>) -> Seq<(Seq<char>, Seq<char>)> {
    match o {
        Some(s) => seq![(key, spec_string_text(s))],
        None => Seq::empty(),
    }
}

/// The members of the palette's JSON text, in alphabetical key order.
pub open spec fn spec_palette_pairs(pv: PaletteView) -> Seq<(Seq<char>, Seq<char>)> {
    opt_pair("accent1_hex"@, pv.accent1) + opt_pair("accent2_hex"@, pv.accent2) + opt_pair(
        "neutral1_hex"@,
        pv.neutral1,
    ) + opt_pair("neutral2_hex"@, pv.neutral2) + opt_pair("primary_hex"@, pv.primary) + opt_pair(
        "secondary_hex"@,
        pv.secondary,
    ) + opt_pair("tertiary_hex"@, pv.tertiary)
}

/// The palette's JSON text.
pub open spec fn spec_palette_json(pv: PaletteView) -> Seq<char> {
    spec_object_text(spec_palette_pairs(pv))
}

} // verus!
