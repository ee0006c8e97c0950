use vstd::prelude::*;

verus! {

/// A named, priced item of the menu.
pub struct Pizza {
    pub name: String,
    pub price: i32,
}

impl View for Pizza {
    type V = (Seq<char>, i32);

    open spec fn view(&self) -> (Seq<char>, i32) {
        (self.name@, self.price)
    }
}

/// The menu: an ordered list of pizzas.
pub struct PizzaList {
    pub pizzas: Vec<Pizza>,
}

impl View for PizzaList {
    type V = Seq<(Seq<char>, i32)>;

    open spec fn view(&self) -> Seq<(Seq<char>, i32)> {
        self.pizzas@.map_values(|p: Pizza| p@)
    }
}

/// The fixed menu, in its fixed order.
pub open spec fn catalog() -> Seq<(Seq<char>, i32)> {
    seq![("veggie"@, 10i32), ("regina"@, 12i32), ("deluxe"@, 9i32)]
}

/// No two entries of `s` share a name.
pub open spec fn names_unique(s: Seq<(Seq<char>, i32)>) -> bool {
    forall|i: int, j: int| 0 <= i < s.len() && 0 <= j < s.len() && i != j ==> s[i].0 != s[j].0
}

/// The first entry of `s` whose name equals `name` exactly, if any.
pub open spec fn find_pizza(s: Seq<(Seq<char>, i32)>, name: Seq<char>) -> Option<(Seq<char>, i32)>
    decreases s.len(),
{
    if s.len() == 0 {
        None
    } else if s[0].0 == name {
        Some(s[0])
    } else {
        find_pizza(s.drop_first(), name)
    }
}

impl PizzaList {
    /// Builds the menu: veggie at 10, regina at 12, deluxe at 9.
    pub fn new() -> (r: PizzaList)
        ensures
            r@ == catalog(),
            r@.len() == 3,
    {
        let pizzas = vec![
            Pizza { name: String::from_str("veggie"), price: 10 },
            Pizza { name: String::from_str("regina"), price: 12 },
            Pizza { name: String::from_str("deluxe"), price: 9 },
        ];
        let r = PizzaList { pizzas };
        assert(r@ =~= catalog());
        r
    }
}

/// Finds the first pizza of the list whose name is exactly `pizza_name`
/// (case-sensitive); `None` when no pizza has that name.
pub fn get_pizza_from_name<'a>(pizza_name: &str, pizza_list: &'a PizzaList) -> (r: Option<&'a Pizza>)
    ensures
        match r {
            Some(p) => find_pizza(pizza_list@, pizza_name@) == Some(p@),
            None => find_pizza(pizza_list@, pizza_name@) is None,
        },
{
    let wanted = String::from_str(pizza_name);
    let n = pizza_list.pizzas.len();
    let mut i: usize = 0;
    assert(pizza_list@.subrange(0, n as int) =~= pizza_list@);
    while i < n
        invariant
            n == pizza_list.pizzas@.len(),
            i <= n,
            wanted@ == pizza_name@,
            find_pizza(pizza_list@, pizza_name@) == find_pizza(pizza_list@.subrange(i as int, n as int), pizza_name@),
        decreases n - i,
    {
        let pizza = &pizza_list.pizzas[i];
        let ghost rest = pizza_list@.subrange(i as int, n as int);
        assert(rest[0] == pizza@);
        if pizza.name == wanted {
            return Some(pizza);
        }
        assert(rest.drop_first() =~= pizza_list@.subrange(i + 1, n as int));
        i = i + 1;
    }
    None
}

/// The menu has three entries, and no two of them share a name.
pub proof fn lemma_catalog_shape()
    ensures
        catalog().len() == 3,
        names_unique(catalog()),
{
    reveal_strlit("veggie");
    reveal_strlit("regina");
    reveal_strlit("deluxe");
    assert(catalog()[0].0[0] != catalog()[1].0[0]);
    assert(catalog()[0].0[0] != catalog()[2].0[0]);
    assert(catalog()[1].0[0] != catalog()[2].0[0]);
}

/// Looking up one name in two freshly built menus gives the same answer.
pub proof fn lemma_lookup_repeatable(a: PizzaList, b: PizzaList, name: Seq<char>)
    requires
        a@ == catalog(),
        b@ == catalog(),
    ensures
        find_pizza(a@, name) == find_pizza(b@, name),
{
}

} // verus!
