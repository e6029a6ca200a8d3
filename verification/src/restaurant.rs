use vstd::prelude::*;

verus! {

/// A breakfast order. The guest picks the toast and may change it; the
/// seasonal fruit is the kitchen's choice and stays private.
pub struct Breakfast {
    pub toast: String,
    seasonal_fruit: String,
}

impl Breakfast {
    /// The toast on the order, as the guest chose it.
    pub closed spec fn toast_of(&self) -> Seq<char> {
        self.toast@
    }

    /// The fruit the kitchen chose for this order.
    pub closed spec fn fruit(&self) -> Seq<char> {
        self.seasonal_fruit@
    }

    /// A summer breakfast: the requested toast, served with peaches.
    pub fn summer(toast: &str) -> (b: Breakfast)
        ensures
            b.toast_of() == toast@,
            b.fruit() == "peaches"@,
    {
        Breakfast { toast: toast.to_owned(), seasonal_fruit: "peaches".to_owned() }
    }
}

} // verus!
