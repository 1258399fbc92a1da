//! Service records and their HTML rendering.
//!
//! A `Service` is one entry of the dashboard, parsed from a single descriptor
//! file. A `Services` value is the registry for one page render: the ordered
//! collection of every record that parsed successfully.

use vstd::prelude::*;

verus! {

/// One linked service: the three fields of a descriptor file.
#[derive(Debug)]
pub struct Service {
    pub name: String,
    pub url: String,
    pub description: String,
}

/// The mathematical view of a `Service`: its fields as character sequences.
pub ghost struct ServiceView {
    pub name: Seq<char>,
    pub url: Seq<char>,
    pub description: Seq<char>,
}

impl View for Service {
    type V = ServiceView;

    open spec fn view(&self) -> ServiceView {
        ServiceView { name: self.name@, url: self.url@, description: self.description@ }
    }
}

/// The registry: all successfully parsed records of one page load, in
/// directory-enumeration order.
#[derive(Debug)]
pub struct Services {
    pub services: Vec<Service>,
}

impl View for Services {
    type V = Seq<ServiceView>;

    open spec fn view(&self) -> Seq<ServiceView> {
        self.services@.map_values(|s: Service| s@)
    }
}

/// The HTML fragment rendered for one service record.
pub open spec fn service_html(s: ServiceView) -> Seq<char> {
    "<article class=\"service-entry\" onclick=\"goto('"@ + s.url + "')\"><h2>"@ + s.name
        + "</h2><span>"@ + s.description + "</span></article>"@
}

/// The HTML list rendered for a whole registry: each record's fragment
/// wrapped in a list item, in registry order.
pub open spec fn services_html(rs: Seq<ServiceView>) -> Seq<char>
    decreases rs.len(),
{
    if rs.len() == 0 {
        Seq::<char>::empty()
    } else {
        services_html(rs.drop_last()) + "<li>"@ + service_html(rs.last()) + "</li>"@
    }
}

impl Service {
    pub fn as_html(&self) -> (r: String)
        ensures
            r@ == service_html(self@),
    {
        let mut r = String::new();
        r.append("<article class=\"service-entry\" onclick=\"goto('");
        r.append(self.url.as_str());
        r.append("')\"><h2>");
        r.append(self.name.as_str());
        r.append("</h2><span>");
        r.append(self.description.as_str());
        r.append("</span></article>");
        r
    }
}

impl Services {
    /// An empty registry.
    pub fn new() -> (r: Services)
        ensures
            r@ == Seq::<ServiceView>::empty(),
    {
        let r = Services { services: Vec::new() };
        proof {
            assert(r@ =~= Seq::<ServiceView>::empty());
        }
        r
    }

    /// Appends one record at the end of the registry.
    pub fn push(&mut self, s: Service)
        ensures
            final(self)@ == old(self)@.push(s@),
    {
        let ghost prev = self@;
        self.services.push(s);
        proof {
            assert(final(self)@ =~= prev.push(s@));
        }
    }

    /// How many records the registry holds.
    pub fn len(&self) -> (n: usize)
        ensures
            n == self@.len(),
    {
        self.services.len()
    }

    pub fn as_html(&self) -> (r: String)
        ensures
            r@ == services_html(self@),
    {
        let mut r = String::new();
        let n = self.services.len();
        proof {
            assert(self@.take(0) =~= Seq::<ServiceView>::empty());
        }
        for i in 0..n
            invariant
                n == self.services.len(),
                r@ == services_html(self@.take(i as int)),
        {
            let h = self.services[i].as_html();
            r.append("<li>");
            r.append(h.as_str());
            r.append("</li>");
            proof {
                assert(self@.take(i + 1).drop_last() =~= self@.take(i as int));
                assert(self@.take(i + 1).last() == self@[i as int]);
            }
        }
        proof {
            assert(self@.take(n as int) =~= self@);
        }
        r
    }
}

} // verus!
