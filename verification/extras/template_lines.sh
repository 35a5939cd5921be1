#!/bin/sh
# Lists, for each template of src/templates.rs, the constant with its line and the line on which it
# begins. The two numbers of a row have to agree.
cd "$(dirname "$0")/.." || exit 1
status=0
for name in CALLBACK_TABLE VOID_CLOSURE VALUE_CLOSURE METADATA; do
    stated=$(sed -n "s/^pub const ${name}_LINE: u32 = \([0-9]*\);/\1/p" src/templates.rs)
    actual=$(grep -n "^pub const ${name}_OPEN:" src/templates.rs | cut -d: -f1)
    echo "$name $stated $actual"
    [ "$stated" = "$actual" ] || status=1
done
exit $status
