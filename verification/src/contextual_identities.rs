//! Wrapper for the browser's `contextualIdentities` API.

use vstd::prelude::*;

use crate::error::Error;
use crate::json::{
    from_opt_str, opt_str_view, req_str, req_str_of, str_eq, view_opt_str, JsonValue, JsonView,
};

verus! {

/// The color of a contextual identity, as the host names it.
#[derive(Debug, Clone, Copy, PartialEq, Eq, Structural)]
pub enum Color {
    Blue,
    Turquoise,
    Green,
    Yellow,
    Orange,
    Red,
    Pink,
    Purple,
    Toolbar,
}

impl Color {
    /// The name the host uses for this color.
    pub open spec fn spec_name(self) -> Seq<char> {
        match self {
            Color::Blue => "blue"@,
            Color::Turquoise => "turquoise"@,
            Color::Green => "green"@,
            Color::Yellow => "yellow"@,
            Color::Orange => "orange"@,
            Color::Red => "red"@,
            Color::Pink => "pink"@,
            Color::Purple => "purple"@,
            Color::Toolbar => "toolbar"@,
        }
    }

    /// The color a host name denotes, if any.
    pub open spec fn of_name(s: Seq<char>) -> Option<Color> {
        if s == "blue"@ {
            Some(Color::Blue)
        } else if s == "turquoise"@ {
            Some(Color::Turquoise)
        } else if s == "green"@ {
            Some(Color::Green)
        } else if s == "yellow"@ {
            Some(Color::Yellow)
        } else if s == "orange"@ {
            Some(Color::Orange)
        } else if s == "red"@ {
            Some(Color::Red)
        } else if s == "pink"@ {
            Some(Color::Pink)
        } else if s == "purple"@ {
            Some(Color::Purple)
        } else if s == "toolbar"@ {
            Some(Color::Toolbar)
        } else {
            None
        }
    }

    /// The host's name for this color.
    pub fn name(&self) -> (r: &'static str)
        ensures
            r@ == self.spec_name(),
    {
        match self {
            Color::Blue => "blue",
            Color::Turquoise => "turquoise",
            Color::Green => "green",
            Color::Yellow => "yellow",
            Color::Orange => "orange",
            Color::Red => "red",
            Color::Pink => "pink",
            Color::Purple => "purple",
            Color::Toolbar => "toolbar",
        }
    }

    /// Parses a host name into a color.
    pub fn parse_name(s: &str) -> (r: Option<Color>)
        ensures
            r == Color::of_name(s@),
    {
        if str_eq(s, "blue") {
            Some(Color::Blue)
        } else if str_eq(s, "turquoise") {
            Some(Color::Turquoise)
        } else if str_eq(s, "green") {
            Some(Color::Green)
        } else if str_eq(s, "yellow") {
            Some(Color::Yellow)
        } else if str_eq(s, "orange") {
            Some(Color::Orange)
        } else if str_eq(s, "red") {
            Some(Color::Red)
        } else if str_eq(s, "pink") {
            Some(Color::Pink)
        } else if str_eq(s, "purple") {
            Some(Color::Purple)
        } else if str_eq(s, "toolbar") {
            Some(Color::Toolbar)
        } else {
            None
        }
    }

    /// This color as the host value it is sent as.
    pub fn to_json(&self) -> (v: JsonValue)
        ensures
            v@ == JsonView::Str(self.spec_name()),
    {
        JsonValue::Str(self.name().to_owned())
    }
}

/// The icon of a contextual identity, as the host names it.
#[derive(Debug, Clone, Copy, PartialEq, Eq, Structural)]
pub enum Icon {
    Fingerprint,
    Briefcase,
    Dollar,
    Cart,
    Circle,
    Gift,
    Vacation,
    Food,
    Fruit,
    Pet,
    Tree,
    Chill,
    Fence,
}

impl Icon {
    /// The name the host uses for this icon.
    pub open spec fn spec_name(self) -> Seq<char> {
        match self {
            Icon::Fingerprint => "fingerprint"@,
            Icon::Briefcase => "briefcase"@,
            Icon::Dollar => "dollar"@,
            Icon::Cart => "cart"@,
            Icon::Circle => "circle"@,
            Icon::Gift => "gift"@,
            Icon::Vacation => "vacation"@,
            Icon::Food => "food"@,
            Icon::Fruit => "fruit"@,
            Icon::Pet => "pet"@,
            Icon::Tree => "tree"@,
            Icon::Chill => "chill"@,
            Icon::Fence => "fence"@,
        }
    }

    /// The icon a host name denotes, if any.
    pub open spec fn of_name(s: Seq<char>) -> Option<Icon> {
        if s == "fingerprint"@ {
            Some(Icon::Fingerprint)
        } else if s == "briefcase"@ {
            Some(Icon::Briefcase)
        } else if s == "dollar"@ {
            Some(Icon::Dollar)
        } else if s == "cart"@ {
            Some(Icon::Cart)
        } else if s == "circle"@ {
            Some(Icon::Circle)
        } else if s == "gift"@ {
            Some(Icon::Gift)
        } else if s == "vacation"@ {
            Some(Icon::Vacation)
        } else if s == "food"@ {
            Some(Icon::Food)
        } else if s == "fruit"@ {
            Some(Icon::Fruit)
        } else if s == "pet"@ {
            Some(Icon::Pet)
        } else if s == "tree"@ {
            Some(Icon::Tree)
        } else if s == "chill"@ {
            Some(Icon::Chill)
        } else if s == "fence"@ {
            Some(Icon::Fence)
        } else {
            None
        }
    }

    /// The host's name for this icon.
    pub fn name(&self) -> (r: &'static str)
        ensures
            r@ == self.spec_name(),
    {
        match self {
            Icon::Fingerprint => "fingerprint",
            Icon::Briefcase => "briefcase",
            Icon::Dollar => "dollar",
            Icon::Cart => "cart",
            Icon::Circle => "circle",
            Icon::Gift => "gift",
            Icon::Vacation => "vacation",
            Icon::Food => "food",
            Icon::Fruit => "fruit",
            Icon::Pet => "pet",
            Icon::Tree => "tree",
            Icon::Chill => "chill",
            Icon::Fence => "fence",
        }
    }

    /// Parses a host name into an icon.
    pub fn parse_name(s: &str) -> (r: Option<Icon>)
        ensures
            r == Icon::of_name(s@),
    {
        if str_eq(s, "fingerprint") {
            Some(Icon::Fingerprint)
        } else if str_eq(s, "briefcase") {
            Some(Icon::Briefcase)
        } else if str_eq(s, "dollar") {
            Some(Icon::Dollar)
        } else if str_eq(s, "cart") {
            Some(Icon::Cart)
        } else if str_eq(s, "circle") {
            Some(Icon::Circle)
        } else if str_eq(s, "gift") {
            Some(Icon::Gift)
        } else if str_eq(s, "vacation") {
            Some(Icon::Vacation)
        } else if str_eq(s, "food") {
            Some(Icon::Food)
        } else if str_eq(s, "fruit") {
            Some(Icon::Fruit)
        } else if str_eq(s, "pet") {
            Some(Icon::Pet)
        } else if str_eq(s, "tree") {
            Some(Icon::Tree)
        } else if str_eq(s, "chill") {
            Some(Icon::Chill)
        } else if str_eq(s, "fence") {
            Some(Icon::Fence)
        } else {
            None
        }
    }

    /// This icon as the host value it is sent as.
    pub fn to_json(&self) -> (v: JsonValue)
        ensures
            v@ == JsonView::Str(self.spec_name()),
    {
        JsonValue::Str(self.name().to_owned())
    }
}

/// Serializing a color and reading the name back yields the same color:
/// the host names are distinct and `of_name` inverts `spec_name`.
pub proof fn lemma_color_name_round_trip(c: Color)
    ensures
        Color::of_name(c.spec_name()) == Some(c),
{
    reveal_strlit("blue");
    reveal_strlit("turquoise");
    reveal_strlit("green");
    reveal_strlit("yellow");
    reveal_strlit("orange");
    reveal_strlit("red");
    reveal_strlit("pink");
    reveal_strlit("purple");
    reveal_strlit("toolbar");
    assert(("blue"@).len() == 4);
    assert(("turquoise"@).len() == 9);
    assert(("green"@).len() == 5);
    assert(("yellow"@).len() == 6);
    assert(("orange"@).len() == 6);
    assert(("red"@).len() == 3);
    assert(("pink"@).len() == 4);
    assert(("purple"@).len() == 6);
    assert(("toolbar"@).len() == 7);
    assert("turquoise"@ != "blue"@);
    assert("green"@ != "blue"@);
    assert("green"@ != "turquoise"@);
    assert("yellow"@ != "blue"@);
    assert("yellow"@ != "turquoise"@);
    assert("yellow"@ != "green"@);
    assert("orange"@ != "blue"@);
    assert("orange"@ != "turquoise"@);
    assert("orange"@ != "green"@);
    assert(("orange"@)[0] != ("yellow"@)[0]);
    assert("orange"@ != "yellow"@);
    assert("red"@ != "blue"@);
    assert("red"@ != "turquoise"@);
    assert("red"@ != "green"@);
    assert("red"@ != "yellow"@);
    assert("red"@ != "orange"@);
    assert(("pink"@)[0] != ("blue"@)[0]);
    assert("pink"@ != "blue"@);
    assert("pink"@ != "turquoise"@);
    assert("pink"@ != "green"@);
    assert("pink"@ != "yellow"@);
    assert("pink"@ != "orange"@);
    assert("pink"@ != "red"@);
    assert("purple"@ != "blue"@);
    assert("purple"@ != "turquoise"@);
    assert("purple"@ != "green"@);
    assert(("purple"@)[0] != ("yellow"@)[0]);
    assert("purple"@ != "yellow"@);
    assert(("purple"@)[0] != ("orange"@)[0]);
    assert("purple"@ != "orange"@);
    assert("purple"@ != "red"@);
    assert("purple"@ != "pink"@);
    assert("toolbar"@ != "blue"@);
    assert("toolbar"@ != "turquoise"@);
    assert("toolbar"@ != "green"@);
    assert("toolbar"@ != "yellow"@);
    assert("toolbar"@ != "orange"@);
    assert("toolbar"@ != "red"@);
    assert("toolbar"@ != "pink"@);
    assert("toolbar"@ != "purple"@);
    match c {
        Color::Blue => assert(Color::of_name("blue"@) == Some(Color::Blue)),
        Color::Turquoise => assert(Color::of_name("turquoise"@) == Some(Color::Turquoise)),
        Color::Green => assert(Color::of_name("green"@) == Some(Color::Green)),
        Color::Yellow => assert(Color::of_name("yellow"@) == Some(Color::Yellow)),
        Color::Orange => assert(Color::of_name("orange"@) == Some(Color::Orange)),
        Color::Red => assert(Color::of_name("red"@) == Some(Color::Red)),
        Color::Pink => assert(Color::of_name("pink"@) == Some(Color::Pink)),
        Color::Purple => assert(Color::of_name("purple"@) == Some(Color::Purple)),
        Color::Toolbar => assert(Color::of_name("toolbar"@) == Some(Color::Toolbar)),
    }
}

/// Serializing an icon and reading the name back yields the same icon.
pub proof fn lemma_icon_name_round_trip(i: Icon)
    ensures
        Icon::of_name(i.spec_name()) == Some(i),
{
    reveal_strlit("fingerprint");
    reveal_strlit("briefcase");
    reveal_strlit("dollar");
    reveal_strlit("cart");
    reveal_strlit("circle");
    reveal_strlit("gift");
    reveal_strlit("vacation");
    reveal_strlit("food");
    reveal_strlit("fruit");
    reveal_strlit("pet");
    reveal_strlit("tree");
    reveal_strlit("chill");
    reveal_strlit("fence");
    assert(("fingerprint"@).len() == 11);
    assert(("briefcase"@).len() == 9);
    assert(("dollar"@).len() == 6);
    assert(("cart"@).len() == 4);
    assert(("circle"@).len() == 6);
    assert(("gift"@).len() == 4);
    assert(("vacation"@).len() == 8);
    assert(("food"@).len() == 4);
    assert(("fruit"@).len() == 5);
    assert(("pet"@).len() == 3);
    assert(("tree"@).len() == 4);
    assert(("chill"@).len() == 5);
    assert(("fence"@).len() == 5);
    assert("briefcase"@ != "fingerprint"@);
    assert("dollar"@ != "fingerprint"@);
    assert("dollar"@ != "briefcase"@);
    assert("cart"@ != "fingerprint"@);
    assert("cart"@ != "briefcase"@);
    assert("cart"@ != "dollar"@);
    assert("circle"@ != "fingerprint"@);
    assert("circle"@ != "briefcase"@);
    assert(("circle"@)[0] != ("dollar"@)[0]);
    assert("circle"@ != "dollar"@);
    assert("circle"@ != "cart"@);
    assert("gift"@ != "fingerprint"@);
    assert("gift"@ != "briefcase"@);
    assert("gift"@ != "dollar"@);
    assert(("gift"@)[0] != ("cart"@)[0]);
    assert("gift"@ != "cart"@);
    assert("gift"@ != "circle"@);
    assert("vacation"@ != "fingerprint"@);
    assert("vacation"@ != "briefcase"@);
    assert("vacation"@ != "dollar"@);
    assert("vacation"@ != "cart"@);
    assert("vacation"@ != "circle"@);
    assert("vacation"@ != "gift"@);
    assert("food"@ != "fingerprint"@);
    assert("food"@ != "briefcase"@);
    assert("food"@ != "dollar"@);
    assert(("food"@)[0] != ("cart"@)[0]);
    assert("food"@ != "cart"@);
    assert("food"@ != "circle"@);
    assert(("food"@)[0] != ("gift"@)[0]);
    assert("food"@ != "gift"@);
    assert("food"@ != "vacation"@);
    assert("fruit"@ != "fingerprint"@);
    assert("fruit"@ != "briefcase"@);
    assert("fruit"@ != "dollar"@);
    assert("fruit"@ != "cart"@);
    assert("fruit"@ != "circle"@);
    assert("fruit"@ != "gift"@);
    assert("fruit"@ != "vacation"@);
    assert("fruit"@ != "food"@);
    assert("pet"@ != "fingerprint"@);
    assert("pet"@ != "briefcase"@);
    assert("pet"@ != "dollar"@);
    assert("pet"@ != "cart"@);
    assert("pet"@ != "circle"@);
    assert("pet"@ != "gift"@);
    assert("pet"@ != "vacation"@);
    assert("pet"@ != "food"@);
    assert("pet"@ != "fruit"@);
    assert("tree"@ != "fingerprint"@);
    assert("tree"@ != "briefcase"@);
    assert("tree"@ != "dollar"@);
    assert(("tree"@)[0] != ("cart"@)[0]);
    assert("tree"@ != "cart"@);
    assert("tree"@ != "circle"@);
    assert(("tree"@)[0] != ("gift"@)[0]);
    assert("tree"@ != "gift"@);
    assert("tree"@ != "vacation"@);
    assert(("tree"@)[0] != ("food"@)[0]);
    assert("tree"@ != "food"@);
    assert("tree"@ != "fruit"@);
    assert("tree"@ != "pet"@);
    assert("chill"@ != "fingerprint"@);
    assert("chill"@ != "briefcase"@);
    assert("chill"@ != "dollar"@);
    assert("chill"@ != "cart"@);
    assert("chill"@ != "circle"@);
    assert("chill"@ != "gift"@);
    assert("chill"@ != "vacation"@);
    assert("chill"@ != "food"@);
    assert(("chill"@)[0] != ("fruit"@)[0]);
    assert("chill"@ != "fruit"@);
    assert("chill"@ != "pet"@);
    assert("chill"@ != "tree"@);
    assert("fence"@ != "fingerprint"@);
    assert("fence"@ != "briefcase"@);
    assert("fence"@ != "dollar"@);
    assert("fence"@ != "cart"@);
    assert("fence"@ != "circle"@);
    assert("fence"@ != "gift"@);
    assert("fence"@ != "vacation"@);
    assert("fence"@ != "food"@);
    assert(("fence"@)[1] != ("fruit"@)[1]);
    assert("fence"@ != "fruit"@);
    assert("fence"@ != "pet"@);
    assert("fence"@ != "tree"@);
    assert(("fence"@)[0] != ("chill"@)[0]);
    assert("fence"@ != "chill"@);
    match i {
        Icon::Fingerprint => assert(Icon::of_name("fingerprint"@) == Some(Icon::Fingerprint)),
        Icon::Briefcase => assert(Icon::of_name("briefcase"@) == Some(Icon::Briefcase)),
        Icon::Dollar => assert(Icon::of_name("dollar"@) == Some(Icon::Dollar)),
        Icon::Cart => assert(Icon::of_name("cart"@) == Some(Icon::Cart)),
        Icon::Circle => assert(Icon::of_name("circle"@) == Some(Icon::Circle)),
        Icon::Gift => assert(Icon::of_name("gift"@) == Some(Icon::Gift)),
        Icon::Vacation => assert(Icon::of_name("vacation"@) == Some(Icon::Vacation)),
        Icon::Food => assert(Icon::of_name("food"@) == Some(Icon::Food)),
        Icon::Fruit => assert(Icon::of_name("fruit"@) == Some(Icon::Fruit)),
        Icon::Pet => assert(Icon::of_name("pet"@) == Some(Icon::Pet)),
        Icon::Tree => assert(Icon::of_name("tree"@) == Some(Icon::Tree)),
        Icon::Chill => assert(Icon::of_name("chill"@) == Some(Icon::Chill)),
        Icon::Fence => assert(Icon::of_name("fence"@) == Some(Icon::Fence)),
    }
}

/// A required color field of a host object.
pub open spec fn req_color_of(o: Seq<(Seq<char>, JsonView)>, key: Seq<char>) -> Result<
    Color,
    (),
> {
    match req_str_of(o, key) {
        Ok(s) => match Color::of_name(s) {
            Some(c) => Ok(c),
            None => Err(()),
        },
        Err(e) => Err(e),
    }
}

/// A required icon field of a host object.
pub open spec fn req_icon_of(o: Seq<(Seq<char>, JsonView)>, key: Seq<char>) -> Result<Icon, ()> {
    match req_str_of(o, key) {
        Ok(s) => match Icon::of_name(s) {
            Some(i) => Ok(i),
            None => Err(()),
        },
        Err(e) => Err(e),
    }
}

/// A contextual identity ("container"), as the host describes one.
#[derive(Debug, Clone, PartialEq, Eq)]
pub struct ContextualIdentity {
    pub cookie_store_id: String,
    pub color: Color,
    pub color_code: String,
    pub icon: Icon,
    pub icon_url: String,
    pub name: String,
}

/// The mathematical content of a [`ContextualIdentity`].
pub struct ContextualIdentityView {
    pub cookie_store_id: Seq<char>,
    pub color: Color,
    pub color_code: Seq<char>,
    pub icon: Icon,
    pub icon_url: Seq<char>,
    pub name: Seq<char>,
}

impl View for ContextualIdentity {
    type V = ContextualIdentityView;

    open spec fn view(&self) -> ContextualIdentityView {
        ContextualIdentityView {
            cookie_store_id: self.cookie_store_id@,
            color: self.color,
            color_code: self.color_code@,
            icon: self.icon,
            icon_url: self.icon_url@,
            name: self.name@,
        }
    }
}

/// Whether a host object has the fields of a contextual identity.
pub open spec fn identity_fields_ok(o: Seq<(Seq<char>, JsonView)>) -> bool {
    &&& req_str_of(o, "cookieStoreId"@) is Ok
    &&& req_color_of(o, "color"@) is Ok
    &&& req_str_of(o, "colorCode"@) is Ok
    &&& req_icon_of(o, "icon"@) is Ok
    &&& req_str_of(o, "iconUrl"@) is Ok
    &&& req_str_of(o, "name"@) is Ok
}

/// The contextual identity a well-shaped host object describes.
pub open spec fn identity_of(o: Seq<(Seq<char>, JsonView)>) -> ContextualIdentityView {
    ContextualIdentityView {
        cookie_store_id: req_str_of(o, "cookieStoreId"@)->Ok_0,
        color: req_color_of(o, "color"@)->Ok_0,
        color_code: req_str_of(o, "colorCode"@)->Ok_0,
        icon: req_icon_of(o, "icon"@)->Ok_0,
        icon_url: req_str_of(o, "iconUrl"@)->Ok_0,
        name: req_str_of(o, "name"@)->Ok_0,
    }
}

impl ContextualIdentity {
    /// Reads a contextual identity out of a host value.
    pub fn from_json(v: &JsonValue) -> (r: Result<ContextualIdentity, Error>)
        ensures
            r is Ok <==> (v@ matches JsonView::Obj(ms) && identity_fields_ok(ms)),
            r matches Ok(c) ==> c@ == identity_of(v@->Obj_0),
            r matches Err(e) ==> e is JsonDeserialization,
    {
        let o = match v.as_members() {
            Some(o) => o,
            None => {
                return Err(Error::bad_response("contextualIdentity: expected an object"));
            },
        };
        let cookie_store_id = match req_str(o, "cookieStoreId") {
            Ok(x) => x,
            Err(_) => {
                return Err(Error::bad_response("contextualIdentity: malformed field"));
            },
        };
        let color = match req_str(o, "color") {
            Ok(s) => match Color::parse_name(s.as_str()) {
                Some(c) => c,
                None => {
                    return Err(Error::bad_response("contextualIdentity: malformed field"));
                },
            },
            Err(_) => {
                return Err(Error::bad_response("contextualIdentity: malformed field"));
            },
        };
        let color_code = match req_str(o, "colorCode") {
            Ok(x) => x,
            Err(_) => {
                return Err(Error::bad_response("contextualIdentity: malformed field"));
            },
        };
        let icon = match req_str(o, "icon") {
            Ok(s) => match Icon::parse_name(s.as_str()) {
                Some(i) => i,
                None => {
                    return Err(Error::bad_response("contextualIdentity: malformed field"));
                },
            },
            Err(_) => {
                return Err(Error::bad_response("contextualIdentity: malformed field"));
            },
        };
        let icon_url = match req_str(o, "iconUrl") {
            Ok(x) => x,
            Err(_) => {
                return Err(Error::bad_response("contextualIdentity: malformed field"));
            },
        };
        let name = match req_str(o, "name") {
            Ok(x) => x,
            Err(_) => {
                return Err(Error::bad_response("contextualIdentity: malformed field"));
            },
        };
        Ok(ContextualIdentity { cookie_store_id, color, color_code, icon, icon_url, name })
    }
}

/// What a new contextual identity is created from.
#[derive(Debug, Clone)]
pub struct CreateDetails {
    pub name: String,
    pub color: Color,
    pub icon: Icon,
}

impl CreateDetails {
    /// The request object for the host's `create` call.
    pub open spec fn json(self) -> JsonView {
        JsonView::Obj(
            seq![
                ("name"@, JsonView::Str(self.name@)),
                ("color"@, JsonView::Str(self.color.spec_name())),
                ("icon"@, JsonView::Str(self.icon.spec_name())),
            ],
        )
    }

    /// Builds the request object for the host's `create` call.
    pub fn to_json(&self) -> (v: JsonValue)
        ensures
            v@ == self.json(),
    {
        let mut members: Vec<(String, JsonValue)> = Vec::new();
        members.push(("name".to_owned(), JsonValue::Str(self.name.clone())));
        members.push(("color".to_owned(), self.color.to_json()));
        members.push(("icon".to_owned(), self.icon.to_json()));
        let v = JsonValue::Obj(members);
        proof {
            crate::json::lemma_members_of_seq(v->Obj_0@);
            let ghost ms = crate::json::members_of_vec(v->Obj_0);
            assert forall|i: int| 0 <= i < ms.len() implies ms[i] == self.json()->Obj_0[i] by {
                assert(ms[i] == crate::json::member_view(v->Obj_0@[i]));
            }
            assert(ms =~~= self.json()->Obj_0);
            assert(v@ =~~= self.json());
        }
        v
    }
}

/// What the host's `query` call filters contextual identities by.
#[derive(Debug, Clone, Default)]
pub struct QueryDetails {
    pub name: Option<String>,
}

impl QueryDetails {
    /// The request object for the host's `query` call.
    pub open spec fn json(self) -> JsonView {
        JsonView::Obj(
            seq![
                ("name"@, opt_str_view(view_opt_str(self.name))),
            ],
        )
    }

    /// Builds the request object for the host's `query` call.
    pub fn to_json(&self) -> (v: JsonValue)
        ensures
            v@ == self.json(),
    {
        let mut members: Vec<(String, JsonValue)> = Vec::new();
        members.push(("name".to_owned(), from_opt_str(&self.name)));
        let v = JsonValue::Obj(members);
        proof {
            crate::json::lemma_members_of_seq(v->Obj_0@);
            let ghost ms = crate::json::members_of_vec(v->Obj_0);
            assert forall|i: int| 0 <= i < ms.len() implies ms[i] == self.json()->Obj_0[i] by {
                assert(ms[i] == crate::json::member_view(v->Obj_0@[i]));
            }
            assert(ms =~~= self.json()->Obj_0);
            assert(v@ =~~= self.json());
        }
        v
    }
}

/// What the host's `update` call may change about a contextual identity.
#[derive(Debug, Clone, Default)]
pub struct UpdateDetails {
    pub name: Option<String>,
    pub color: Option<Color>,
    pub icon: Option<Icon>,
}

/// An optional color as a request sends it: the name, or null.
pub open spec fn opt_color_view(o: Option<Color>) -> JsonView {
    match o {
        Some(c) => JsonView::Str(c.spec_name()),
        None => JsonView::Null,
    }
}

/// An optional icon as a request sends it: the name, or null.
pub open spec fn opt_icon_view(o: Option<Icon>) -> JsonView {
    match o {
        Some(i) => JsonView::Str(i.spec_name()),
        None => JsonView::Null,
    }
}

impl UpdateDetails {
    /// The request object for the host's `update` call.
    pub open spec fn json(self) -> JsonView {
        JsonView::Obj(
            seq![
                ("name"@, opt_str_view(view_opt_str(self.name))),
                ("color"@, opt_color_view(self.color)),
                ("icon"@, opt_icon_view(self.icon)),
            ],
        )
    }

    /// Builds the request object for the host's `update` call.
    pub fn to_json(&self) -> (v: JsonValue)
        ensures
            v@ == self.json(),
    {
        let mut members: Vec<(String, JsonValue)> = Vec::new();
        members.push(("name".to_owned(), from_opt_str(&self.name)));
        let color_value = match &self.color {
            Some(c) => c.to_json(),
            None => JsonValue::Null,
        };
        members.push(("color".to_owned(), color_value));
        let icon_value = match &self.icon {
            Some(i) => i.to_json(),
            None => JsonValue::Null,
        };
        members.push(("icon".to_owned(), icon_value));
        let v = JsonValue::Obj(members);
        proof {
            crate::json::lemma_members_of_seq(v->Obj_0@);
            let ghost ms = crate::json::members_of_vec(v->Obj_0);
            assert forall|i: int| 0 <= i < ms.len() implies ms[i] == self.json()->Obj_0[i] by {
                assert(ms[i] == crate::json::member_view(v->Obj_0@[i]));
            }
            assert(ms =~~= self.json()->Obj_0);
            assert(v@ =~~= self.json());
        }
        v
    }
}

/// Whether every element of a host array is a well-shaped contextual identity.
pub open spec fn identity_list_ok(a: Seq<JsonView>) -> bool {
    forall|i: int|
        0 <= i < a.len() ==> (#[trigger] a[i] matches JsonView::Obj(ms) && identity_fields_ok(ms))
}

/// The contextual identities a well-shaped host array describes.
pub open spec fn identity_list_of(a: Seq<JsonView>) -> Seq<ContextualIdentityView> {
    Seq::new(a.len(), |i: int| identity_of(a[i]->Obj_0))
}

/// Reads the host's answer to an identity query: an array of identities.
#[verifier::loop_isolation(false)]
pub fn identities_from_json(v: &JsonValue) -> (r: Result<Vec<ContextualIdentity>, Error>)
    ensures
        r is Ok <==> (v@ matches JsonView::Arr(a) && identity_list_ok(a)),
        r matches Ok(cs) ==> {
            &&& cs@.len() == v@->Arr_0.len()
            &&& forall|i: int| 0 <= i < cs@.len() ==> #[trigger] cs@[i]@ == identity_list_of(
                v@->Arr_0,
            )[i]
        },
        r matches Err(e) ==> e is JsonDeserialization,
{
    let items = match v.as_elements() {
        Some(a) => a,
        None => {
            return Err(Error::bad_response("contextualIdentities: expected an array"));
        },
    };
    proof {
        crate::json::lemma_views_of_seq(items@);
    }
    let ghost vs = crate::json::views_of_vec(*items);
    let n = items.len();
    let mut out: Vec<ContextualIdentity> = Vec::new();
    let mut k: usize = 0;
    while k < n
        invariant
            n == items@.len(),
            0 <= k <= n,
            vs.len() == items@.len(),
            forall|i: int| 0 <= i < items@.len() ==> vs[i] == crate::json::view_of(items@[i]),
            out@.len() == k,
            forall|i: int|
                0 <= i < k ==> (#[trigger] vs[i] matches JsonView::Obj(ms) && identity_fields_ok(
                    ms,
                )),
            forall|i: int| 0 <= i < k ==> #[trigger] out@[i]@ == identity_of(vs[i]->Obj_0),
        decreases n - k,
    {
        match ContextualIdentity::from_json(&items[k]) {
            Ok(c) => {
                out.push(c);
            },
            Err(e) => {
                proof {
                    assert(vs[k as int] == crate::json::view_of(items@[k as int]));
                    assert(!(vs[k as int] matches JsonView::Obj(ms) && identity_fields_ok(ms)));
                    assert(!identity_list_ok(vs));
                }
                return Err(e);
            },
        }
        k = k + 1;
    }
    Ok(out)
}

} // verus!
