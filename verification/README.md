# tontoo_ui

The verified core of the TontooUI element library: the calendar arithmetic
and the discrete state machines behind its pickers, menus, outline groups,
sidebar and sheets, proved with Verus.

Drawing, text layout, animation curves and hit geometry work on floats and
stay with the rendering layer. That layer measures where the pointer is and
hands the library what lies under it (a row index, a grid cell, a header
zone, a toolbar button); the library decides what the press, move or
release does and reports what fired (a selection change, an action row, a
window command).

Layout of `src/`:

- `calendar`: proleptic Gregorian day numbers, month lengths, weekdays and
  today's date from the system clock.
- `date_picker`: viewed month, selection, month/year popup lists.
- `options`, `inline_picker`, `segmented_picker`, `menu_picker`: option
  lists and the three pickers.
- `menu`, `nested_menu`, `menu_button`, `context_menu`: the dropdown menu
  base, nested submenus, the split menu button and the context menu with
  its touch long-press; `menus`: the entry model of the toolkit-rendered
  menu button and context menu.
- `outline`: the file-tree outline group with expandable folders.
- `sidebar`, `sheet`, `stepper`, `store_product`, `input`: the navigation
  sidebar, modal sheets, stepper sides, the store product data model and
  key input.

Each module states its contracts over a mathematical model of the element
(`View` into ghost structs of `Seq`, `Map` and integers) and proves the laws
that tie its operations together as public proof functions (`lemma_*`).
