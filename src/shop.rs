use rand::rngs::StdRng;
use vstd::prelude::*;
use vstd::string::StringExecFns;

use crate::consumable::{Consumable, ConsumableType, PlanetCard, TarotCard};
use crate::joker::{sat_add_u32, Joker, JokerType};
use crate::rng::below;

verus! {

/// An item available in the shop
#[derive(Debug, Clone, Copy, PartialEq, Eq, Structural)]
pub enum ShopItem {
    JokerItem(Joker),
    ConsumableItem(Consumable),
}

impl ShopItem {
    pub open spec fn spec_name(self) -> Seq<char> {
        match self {
            ShopItem::JokerItem(j) => j.joker_type.spec_name(),
            ShopItem::ConsumableItem(c) => c.consumable_type.spec_name(),
        }
    }

    pub fn name(&self) -> (r: String)
        ensures
            r@ == self.spec_name(),
    {
        match self {
            ShopItem::JokerItem(j) => String::from_str(j.joker_type.name()),
            ShopItem::ConsumableItem(c) => String::from_str(c.consumable_type.name()),
        }
    }

    pub open spec fn spec_description(self) -> Seq<char> {
        match self {
            ShopItem::JokerItem(j) => j.joker_type.spec_description(),
            ShopItem::ConsumableItem(c) => c.consumable_type.spec_description(),
        }
    }

    pub fn description(&self) -> (r: String)
        ensures
            r@ == self.spec_description(),
    {
        match self {
            ShopItem::JokerItem(j) => String::from_str(j.joker_type.description()),
            ShopItem::ConsumableItem(c) => c.consumable_type.description(),
        }
    }

    pub open spec fn spec_price(self) -> u32 {
        match self {
            ShopItem::JokerItem(j) => j.joker_type.spec_price(),
            ShopItem::ConsumableItem(c) => c.consumable_type.spec_price(),
        }
    }

    pub fn price(&self) -> (r: u32)
        ensures
            r == self.spec_price(),
    {
        match self {
            ShopItem::JokerItem(j) => j.joker_type.price(),
            ShopItem::ConsumableItem(c) => c.consumable_type.price(),
        }
    }
}

/// Number of items in the category picked by a roll out of 100: jokers below 70, common
/// planets below 85, tarots otherwise.
pub open spec fn category_size(roll: int) -> int {
    if roll < 70 {
        20
    } else if roll < 85 {
        9
    } else {
        12
    }
}

/// The item that a category roll out of 100 and an index within that category pick.
pub open spec fn item_from_rolls(roll: int, index: int) -> ShopItem {
    if roll < 70 {
        ShopItem::JokerItem(Joker::spec_new(JokerType::spec_all()[index]))
    } else if roll < 85 {
        ShopItem::ConsumableItem(
            Consumable { consumable_type: ConsumableType::Planet(PlanetCard::spec_common()[index]) },
        )
    } else {
        ShopItem::ConsumableItem(
            Consumable { consumable_type: ConsumableType::Tarot(TarotCard::spec_all()[index]) },
        )
    }
}

/// An item the shop can offer: some valid pair of rolls picks it.
pub open spec fn is_offerable(item: ShopItem) -> bool {
    exists|roll: int, index: int|
        0 <= roll < 100 && 0 <= index < category_size(roll) && item == item_from_rolls(roll, index)
}

/// Size of the category that a roll out of 100 picks.
pub fn category_size_of(roll: usize) -> (r: usize)
    ensures
        r == category_size(roll as int),
{
    if roll < 70 {
        20
    } else if roll < 85 {
        9
    } else {
        12
    }
}

/// The item picked by a category roll out of 100 (70% joker, 15% planet, 15% tarot) and
/// an index within the category.
pub fn item_for_rolls(roll: usize, index: usize) -> (r: ShopItem)
    requires
        roll < 100,
        index < category_size(roll as int),
    ensures
        r == item_from_rolls(roll as int, index as int),
{
    if roll < 70 {
        let all = JokerType::all();
        ShopItem::JokerItem(Joker::new(all[index]))
    } else if roll < 85 {
        let common = PlanetCard::common();
        ShopItem::ConsumableItem(Consumable::planet(common[index]))
    } else {
        let all = TarotCard::all();
        ShopItem::ConsumableItem(Consumable::tarot(all[index]))
    }
}

/// The shop state
#[derive(Debug, Clone)]
pub struct Shop {
    pub items: Vec<ShopItem>,
    pub reroll_cost: u32,
}

/// Number of items a freshly stocked shop offers.
pub const SHOP_SLOTS: usize = 2;

/// Reroll cost of a new shop.
pub const BASE_REROLL_COST: u32 = 5;

fn stock(rng: &mut StdRng) -> (items: Vec<ShopItem>)
    ensures
        items@.len() == SHOP_SLOTS,
        forall|i: int| 0 <= i < items@.len() ==> is_offerable(#[trigger] items@[i]),
{
    let mut items: Vec<ShopItem> = Vec::new();
    let mut k: usize = 0;
    while k < SHOP_SLOTS
        invariant
            k <= SHOP_SLOTS,
            items@.len() == k,
            forall|i: int| 0 <= i < items@.len() ==> is_offerable(#[trigger] items@[i]),
        decreases SHOP_SLOTS - k,
    {
        let roll = below(rng, 100);
        let index = below(rng, category_size_of(roll));
        let item = item_for_rolls(roll, index);
        assert(is_offerable(item)) by {
            assert(0 <= roll < 100 && 0 <= index < category_size(roll as int) && item
                == item_from_rolls(roll as int, index as int));
        }
        items.push(item);
        k += 1;
    }
    items
}

impl Shop {
    /// Stock a new shop with two random items and the base reroll cost.
    pub fn generate(rng: &mut StdRng, _ante: u8) -> (r: Self)
        ensures
            r.items@.len() == SHOP_SLOTS,
            forall|i: int| 0 <= i < r.items@.len() ==> is_offerable(#[trigger] r.items@[i]),
            r.reroll_cost == BASE_REROLL_COST,
    {
        Shop { items: stock(rng), reroll_cost: BASE_REROLL_COST }
    }

    /// Restock with new random items; the reroll cost goes up by one and stays up.
    pub fn reroll(&mut self, rng: &mut StdRng, _ante: u8)
        ensures
            final(self).items@.len() == SHOP_SLOTS,
            forall|i: int|
                0 <= i < final(self).items@.len() ==> is_offerable(#[trigger] final(self).items@[i]),
            final(self).reroll_cost == sat_add_u32(old(self).reroll_cost as int, 1),
    {
        self.items = stock(rng);
        self.reroll_cost = self.reroll_cost.saturating_add(1);
    }

    /// Take the item at `index` out of the shop; `None` when there is none.
    pub fn buy(&mut self, index: usize) -> (r: Option<ShopItem>)
        ensures
            index < old(self).items@.len() ==> r == Some(old(self).items@[index as int])
                && final(self).items@ == old(self).items@.remove(index as int),
            index >= old(self).items@.len() ==> r is None && final(self).items@ == old(
                self,
            ).items@,
            final(self).reroll_cost == old(self).reroll_cost,
    {
        if index < self.items.len() {
            Some(self.items.remove(index))
        } else {
            None
        }
    }
}

} // verus!
