use vstd::prelude::*;

verus! {

/// A SIP request method, with the same variants as the message library's
/// `Method`, so that the transaction logic can inspect it.
#[derive(Debug, Hash)]
pub enum Method {
    Invite,
    Ack,
    Bye,
    Cancel,
    Register,
    Options,
    Subscribe,
    Notify,
    Update,
    Refer,
    Info,
    Message,
    Prack,
    Publish,
    /// Any other method, by its name.
    Extension(String),
}

/// The mathematical value of a [`Method`].
pub enum MethodView {
    Invite,
    Ack,
    Bye,
    Cancel,
    Register,
    Options,
    Subscribe,
    Notify,
    Update,
    Refer,
    Info,
    Message,
    Prack,
    Publish,
    Extension(Seq<char>),
}

impl View for Method {
    type V = MethodView;

    open spec fn view(&self) -> MethodView {
        match self {
            Method::Invite => MethodView::Invite,
            Method::Ack => MethodView::Ack,
            Method::Bye => MethodView::Bye,
            Method::Cancel => MethodView::Cancel,
            Method::Register => MethodView::Register,
            Method::Options => MethodView::Options,
            Method::Subscribe => MethodView::Subscribe,
            Method::Notify => MethodView::Notify,
            Method::Update => MethodView::Update,
            Method::Refer => MethodView::Refer,
            Method::Info => MethodView::Info,
            Method::Message => MethodView::Message,
            Method::Prack => MethodView::Prack,
            Method::Publish => MethodView::Publish,
            Method::Extension(s) => MethodView::Extension(s@),
        }
    }
}

/// The name of a method on the wire.
pub open spec fn method_name(m: MethodView) -> Seq<char> {
    match m {
        MethodView::Invite => "INVITE"@,
        MethodView::Ack => "ACK"@,
        MethodView::Bye => "BYE"@,
        MethodView::Cancel => "CANCEL"@,
        MethodView::Register => "REGISTER"@,
        MethodView::Options => "OPTIONS"@,
        MethodView::Subscribe => "SUBSCRIBE"@,
        MethodView::Notify => "NOTIFY"@,
        MethodView::Update => "UPDATE"@,
        MethodView::Refer => "REFER"@,
        MethodView::Info => "INFO"@,
        MethodView::Message => "MESSAGE"@,
        MethodView::Prack => "PRACK"@,
        MethodView::Publish => "PUBLISH"@,
        MethodView::Extension(s) => s,
    }
}

/// The method that a name denotes: a standard name gives its method, any
/// other non-empty name an extension method, and the empty name none.
pub open spec fn parse_method(s: Seq<char>) -> Option<MethodView> {
    if s == "INVITE"@ {
        Some(MethodView::Invite)
    } else if s == "ACK"@ {
        Some(MethodView::Ack)
    } else if s == "BYE"@ {
        Some(MethodView::Bye)
    } else if s == "CANCEL"@ {
        Some(MethodView::Cancel)
    } else if s == "REGISTER"@ {
        Some(MethodView::Register)
    } else if s == "OPTIONS"@ {
        Some(MethodView::Options)
    } else if s == "SUBSCRIBE"@ {
        Some(MethodView::Subscribe)
    } else if s == "NOTIFY"@ {
        Some(MethodView::Notify)
    } else if s == "UPDATE"@ {
        Some(MethodView::Update)
    } else if s == "REFER"@ {
        Some(MethodView::Refer)
    } else if s == "INFO"@ {
        Some(MethodView::Info)
    } else if s == "MESSAGE"@ {
        Some(MethodView::Message)
    } else if s == "PRACK"@ {
        Some(MethodView::Prack)
    } else if s == "PUBLISH"@ {
        Some(MethodView::Publish)
    } else if s.len() > 0 {
        Some(MethodView::Extension(s))
    } else {
        None
    }
}

/// A method value that the parser can give back: an extension method's name
/// is neither empty nor the name of a standard method.
pub open spec fn is_canonical(m: MethodView) -> bool {
    match m {
        MethodView::Extension(s) => parse_method(s) == Some(MethodView::Extension(s)),
        _ => true,
    }
}

impl Clone for Method {
    fn clone(&self) -> (r: Self)
        ensures
            r@ == self@,
    {
        self.duplicate()
    }
}

/// Reading back the name of a method gives the method again, for every method
/// the parser can produce: the standard ones, and extensions whose name is
/// neither empty nor a standard name.
pub proof fn lemma_parse_name_roundtrip(m: MethodView)
    requires
        is_canonical(m),
    ensures
        parse_method(method_name(m)) == Some(m),
{
    reveal_strlit("INVITE");
    reveal_strlit("ACK");
    reveal_strlit("BYE");
    reveal_strlit("CANCEL");
    reveal_strlit("REGISTER");
    reveal_strlit("OPTIONS");
    reveal_strlit("SUBSCRIBE");
    reveal_strlit("NOTIFY");
    reveal_strlit("UPDATE");
    reveal_strlit("REFER");
    reveal_strlit("INFO");
    reveal_strlit("MESSAGE");
    reveal_strlit("PRACK");
    reveal_strlit("PUBLISH");
    assert("INVITE"@.len() == 6 && "INVITE"@[0] == 'I');
    assert("ACK"@.len() == 3 && "ACK"@[0] == 'A');
    assert("BYE"@.len() == 3 && "BYE"@[0] == 'B');
    assert("CANCEL"@.len() == 6 && "CANCEL"@[0] == 'C');
    assert("REGISTER"@.len() == 8 && "REGISTER"@[0] == 'R');
    assert("OPTIONS"@.len() == 7 && "OPTIONS"@[0] == 'O');
    assert("SUBSCRIBE"@.len() == 9 && "SUBSCRIBE"@[0] == 'S');
    assert("NOTIFY"@.len() == 6 && "NOTIFY"@[0] == 'N');
    assert("UPDATE"@.len() == 6 && "UPDATE"@[0] == 'U');
    assert("REFER"@.len() == 5 && "REFER"@[0] == 'R');
    assert("INFO"@.len() == 4 && "INFO"@[0] == 'I');
    assert("MESSAGE"@.len() == 7 && "MESSAGE"@[0] == 'M');
    assert("PRACK"@.len() == 5 && "PRACK"@[0] == 'P');
    assert("PUBLISH"@.len() == 7 && "PUBLISH"@[0] == 'P');
}

/// Naming a parsed name gives the name back: the parser loses nothing.
pub proof fn lemma_name_parse_roundtrip(s: Seq<char>)
    requires
        parse_method(s) is Some,
    ensures
        method_name(parse_method(s).unwrap()) == s,
        is_canonical(parse_method(s).unwrap()),
{
}

/// Two character sequences given as strings are equal.
pub fn str_eq(a: &str, b: &str) -> (r: bool)
    ensures
        r == (a@ == b@),
{
    let x = String::from_str(a);
    let y = String::from_str(b);
    x == y
}

impl Method {
    /// The name of the method on the wire.
    pub fn as_str(&self) -> (s: &str)
        ensures
            s@ == method_name(self@),
    {
        match self {
            Method::Invite => "INVITE",
            Method::Ack => "ACK",
            Method::Bye => "BYE",
            Method::Cancel => "CANCEL",
            Method::Register => "REGISTER",
            Method::Options => "OPTIONS",
            Method::Subscribe => "SUBSCRIBE",
            Method::Notify => "NOTIFY",
            Method::Update => "UPDATE",
            Method::Refer => "REFER",
            Method::Info => "INFO",
            Method::Message => "MESSAGE",
            Method::Prack => "PRACK",
            Method::Publish => "PUBLISH",
            Method::Extension(s) => s.as_str(),
        }
    }

    /// Parses a method name; `None` for the empty name.
    pub fn parse(s: &str) -> (m: Option<Method>)
        ensures
            m matches Some(x) ==> parse_method(s@) == Some(x@),
            m is None <==> parse_method(s@) is None,
    {
        if str_eq(s, "INVITE") {
            Some(Method::Invite)
        } else if str_eq(s, "ACK") {
            Some(Method::Ack)
        } else if str_eq(s, "BYE") {
            Some(Method::Bye)
        } else if str_eq(s, "CANCEL") {
            Some(Method::Cancel)
        } else if str_eq(s, "REGISTER") {
            Some(Method::Register)
        } else if str_eq(s, "OPTIONS") {
            Some(Method::Options)
        } else if str_eq(s, "SUBSCRIBE") {
            Some(Method::Subscribe)
        } else if str_eq(s, "NOTIFY") {
            Some(Method::Notify)
        } else if str_eq(s, "UPDATE") {
            Some(Method::Update)
        } else if str_eq(s, "REFER") {
            Some(Method::Refer)
        } else if str_eq(s, "INFO") {
            Some(Method::Info)
        } else if str_eq(s, "MESSAGE") {
            Some(Method::Message)
        } else if str_eq(s, "PRACK") {
            Some(Method::Prack)
        } else if str_eq(s, "PUBLISH") {
            Some(Method::Publish)
        } else if s.unicode_len() > 0 {
            Some(Method::Extension(String::from_str(s)))
        } else {
            None
        }
    }

    /// Whether the two methods are the same.
    pub fn same_as(&self, other: &Method) -> (r: bool)
        ensures
            r == (self@ == other@),
    {
        match self {
            Method::Invite => other.is_invite(),
            Method::Ack => matches!(other, Method::Ack),
            Method::Bye => matches!(other, Method::Bye),
            Method::Cancel => matches!(other, Method::Cancel),
            Method::Register => matches!(other, Method::Register),
            Method::Options => matches!(other, Method::Options),
            Method::Subscribe => matches!(other, Method::Subscribe),
            Method::Notify => matches!(other, Method::Notify),
            Method::Update => matches!(other, Method::Update),
            Method::Refer => matches!(other, Method::Refer),
            Method::Info => matches!(other, Method::Info),
            Method::Message => matches!(other, Method::Message),
            Method::Prack => matches!(other, Method::Prack),
            Method::Publish => matches!(other, Method::Publish),
            Method::Extension(a) => match other {
                Method::Extension(b) => *a == *b,
                _ => false,
            },
        }
    }

    /// A copy of the method.
    pub fn duplicate(&self) -> (r: Method)
        ensures
            r@ == self@,
    {
        match self {
            Method::Invite => Method::Invite,
            Method::Ack => Method::Ack,
            Method::Bye => Method::Bye,
            Method::Cancel => Method::Cancel,
            Method::Register => Method::Register,
            Method::Options => Method::Options,
            Method::Subscribe => Method::Subscribe,
            Method::Notify => Method::Notify,
            Method::Update => Method::Update,
            Method::Refer => Method::Refer,
            Method::Info => Method::Info,
            Method::Message => Method::Message,
            Method::Prack => Method::Prack,
            Method::Publish => Method::Publish,
            Method::Extension(s) => Method::Extension(s.clone()),
        }
    }

    /// Whether this is INVITE.
    pub fn is_invite(&self) -> (r: bool)
        ensures
            r == (self@ == MethodView::Invite),
    {
        matches!(self, Method::Invite)
    }

    /// Whether this is ACK.
    pub fn is_ack(&self) -> (r: bool)
        ensures
            r == (self@ == MethodView::Ack),
    {
        matches!(self, Method::Ack)
    }

    /// Whether this is CANCEL.
    pub fn is_cancel(&self) -> (r: bool)
        ensures
            r == (self@ == MethodView::Cancel),
    {
        matches!(self, Method::Cancel)
    }

    /// Whether this is UPDATE.
    pub fn is_update(&self) -> (r: bool)
        ensures
            r == (self@ == MethodView::Update),
    {
        matches!(self, Method::Update)
    }
}

} // verus!

verus! {

impl PartialEq for Method {
    fn eq(&self, other: &Self) -> (r: bool) {
        self.same_as(other)
    }
}

impl vstd::std_specs::cmp::PartialEqSpecImpl for Method {
    open spec fn obeys_eq_spec() -> bool {
        true
    }

    open spec fn eq_spec(&self, other: &Self) -> bool {
        self@ == other@
    }
}

impl Eq for Method {}

} // verus!
